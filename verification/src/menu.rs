//! The console menus: which example a typed line selects.

use vstd::prelude::*;

verus! {

/// A list of entries that the user picks from.
#[derive(Clone, Copy, PartialEq, Eq, Structural, Debug)]
pub enum Menu {
    Main,
    HelloTriangle,
    Shaders,
    Textures,
}

/// A program that can be run.
#[derive(Clone, Copy, PartialEq, Eq, Structural, Debug)]
pub enum Example {
    HelloWindow,
    TriangleBasic,
    TriangleIndexed,
    TriangleExercise1,
    TriangleExercise2,
    TriangleExercise3,
    ShadersUniform,
    ShadersAttributes,
    ShadersFromFile,
    ShadersUpsideDown,
    ShadersOffset,
    ShadersPosition,
    LoadTexture,
    TextureUnits,
    TextureWrapping,
    TextureCropZoom,
    VariableOpacity,
}

/// What a typed line selects.
#[derive(Clone, Copy, PartialEq, Eq, Structural, Debug)]
pub enum Choice {
    /// Another menu is shown.
    Open(Menu),
    /// An example is run.
    Run(Example),
    /// The line names no entry of the menu.
    Invalid,
}

/// The entry that a line holds: the line without its last character, which
/// is the line ending where there is one. An empty line is an empty entry.
pub open spec fn entry_of(line: Seq<char>) -> Seq<char> {
    if line.len() == 0 {
        line
    } else {
        line.drop_last()
    }
}

/// The entries of the main menu: a chapter number and a letter.
pub open spec fn main_choice(entry: Seq<char>) -> Choice {
    if entry =~= seq!['1', 'A'] {
        Choice::Run(Example::HelloWindow)
    } else if entry =~= seq!['1', 'B'] {
        Choice::Open(Menu::HelloTriangle)
    } else if entry =~= seq!['1', 'C'] {
        Choice::Open(Menu::Shaders)
    } else {
        Choice::Invalid
    }
}

/// The number that an entry of one digit from 1 to 9 stands for, else 0.
pub open spec fn entry_number(entry: Seq<char>) -> int {
    if entry.len() == 1 && '1' <= entry[0] <= '9' {
        entry[0] as int - '0' as int
    } else {
        0
    }
}

/// The example behind a number of a chapter's menu.
pub open spec fn numbered_choice(menu: Menu, number: int) -> Choice {
    match menu {
        Menu::Main => Choice::Invalid,
        Menu::HelloTriangle => if number == 1 {
            Choice::Run(Example::TriangleBasic)
        } else if number == 2 {
            Choice::Run(Example::TriangleIndexed)
        } else if number == 3 {
            Choice::Run(Example::TriangleExercise1)
        } else if number == 4 {
            Choice::Run(Example::TriangleExercise2)
        } else if number == 5 {
            Choice::Run(Example::TriangleExercise3)
        } else {
            Choice::Invalid
        },
        Menu::Shaders => if number == 1 {
            Choice::Run(Example::ShadersUniform)
        } else if number == 2 {
            Choice::Run(Example::ShadersAttributes)
        } else if number == 3 {
            Choice::Run(Example::ShadersFromFile)
        } else if number == 4 {
            Choice::Run(Example::ShadersUpsideDown)
        } else if number == 5 {
            Choice::Run(Example::ShadersOffset)
        } else if number == 6 {
            Choice::Run(Example::ShadersPosition)
        } else {
            Choice::Invalid
        },
        Menu::Textures => if number == 1 {
            Choice::Run(Example::LoadTexture)
        } else if number == 2 {
            Choice::Run(Example::TextureUnits)
        } else if number == 3 {
            Choice::Run(Example::TextureWrapping)
        } else if number == 4 {
            Choice::Run(Example::TextureCropZoom)
        } else if number == 5 {
            Choice::Run(Example::VariableOpacity)
        } else {
            Choice::Invalid
        },
    }
}

/// What the entry selects in the menu.
pub open spec fn choice_of(menu: Menu, entry: Seq<char>) -> Choice {
    match menu {
        Menu::Main => main_choice(entry),
        _ => numbered_choice(menu, entry_number(entry)),
    }
}

fn select_main(line: &str) -> (choice: Choice)
    ensures
        choice == main_choice(entry_of(line@)),
{
    if line.unicode_len() != 3 || line.get_char(0) != '1' {
        return Choice::Invalid;
    }
    let letter = line.get_char(1);
    if letter == 'A' {
        Choice::Run(Example::HelloWindow)
    } else if letter == 'B' {
        Choice::Open(Menu::HelloTriangle)
    } else if letter == 'C' {
        Choice::Open(Menu::Shaders)
    } else {
        Choice::Invalid
    }
}

fn number_of(line: &str) -> (number: u8)
    ensures
        number == entry_number(entry_of(line@)),
{
    if line.unicode_len() != 2 {
        return 0;
    }
    let c = line.get_char(0);
    if c == '1' {
        1
    } else if c == '2' {
        2
    } else if c == '3' {
        3
    } else if c == '4' {
        4
    } else if c == '5' {
        5
    } else if c == '6' {
        6
    } else if c == '7' {
        7
    } else if c == '8' {
        8
    } else if c == '9' {
        9
    } else {
        0
    }
}

fn select_numbered(menu: Menu, number: u8) -> (choice: Choice)
    ensures
        choice == numbered_choice(menu, number as int),
{
    match menu {
        Menu::Main => Choice::Invalid,
        Menu::HelloTriangle => match number {
            1 => Choice::Run(Example::TriangleBasic),
            2 => Choice::Run(Example::TriangleIndexed),
            3 => Choice::Run(Example::TriangleExercise1),
            4 => Choice::Run(Example::TriangleExercise2),
            5 => Choice::Run(Example::TriangleExercise3),
            _ => Choice::Invalid,
        },
        Menu::Shaders => match number {
            1 => Choice::Run(Example::ShadersUniform),
            2 => Choice::Run(Example::ShadersAttributes),
            3 => Choice::Run(Example::ShadersFromFile),
            4 => Choice::Run(Example::ShadersUpsideDown),
            5 => Choice::Run(Example::ShadersOffset),
            6 => Choice::Run(Example::ShadersPosition),
            _ => Choice::Invalid,
        },
        Menu::Textures => match number {
            1 => Choice::Run(Example::LoadTexture),
            2 => Choice::Run(Example::TextureUnits),
            3 => Choice::Run(Example::TextureWrapping),
            4 => Choice::Run(Example::TextureCropZoom),
            5 => Choice::Run(Example::VariableOpacity),
            _ => Choice::Invalid,
        },
    }
}

/// Decides what a line typed at a menu selects.
pub fn select(menu: Menu, line: &str) -> (choice: Choice)
    ensures
        choice == choice_of(menu, entry_of(line@)),
{
    match menu {
        Menu::Main => select_main(line),
        _ => select_numbered(menu, number_of(line)),
    }
}

/// The entry that a line holds.
pub fn entry(line: &str) -> (entry: &str)
    ensures
        entry@ == entry_of(line@),
{
    let n = line.unicode_len();
    if n == 0 {
        line
    } else {
        line.substring_char(0, n - 1)
    }
}

/// The text that reports a line which selects nothing.
pub fn invalid_input(line: &str) -> (text: String)
    ensures
        text@ == "Invalid input "@ + entry_of(line@) + "."@,
{
    String::from_str("Invalid input ").concat(entry(line)).concat(".")
}

} // verus!
