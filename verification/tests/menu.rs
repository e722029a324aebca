use learn_opengl::menu::{entry, invalid_input, select, Choice, Example, Menu};

#[test]
fn main_menu_entries() {
    assert_eq!(select(Menu::Main, "1A\n"), Choice::Run(Example::HelloWindow));
    assert_eq!(select(Menu::Main, "1B\n"), Choice::Open(Menu::HelloTriangle));
    assert_eq!(select(Menu::Main, "1C\n"), Choice::Open(Menu::Shaders));
    assert_eq!(select(Menu::Main, "1D\n"), Choice::Invalid);
    assert_eq!(select(Menu::Main, "2A\n"), Choice::Invalid);
    assert_eq!(select(Menu::Main, "1a\n"), Choice::Invalid);
    assert_eq!(select(Menu::Main, "1\n"), Choice::Invalid);
    assert_eq!(select(Menu::Main, " 1A\n"), Choice::Invalid);
}

#[test]
fn the_last_character_is_dropped_whatever_it_is() {
    assert_eq!(select(Menu::Main, "1A"), Choice::Invalid);
    assert_eq!(select(Menu::Main, "1Ax"), Choice::Run(Example::HelloWindow));
    assert_eq!(select(Menu::Main, "1A\r\n"), Choice::Invalid);
    assert_eq!(select(Menu::Main, "1Bé"), Choice::Open(Menu::HelloTriangle));
    assert_eq!(select(Menu::Shaders, "3"), Choice::Invalid);
    assert_eq!(entry("1A\n"), "1A");
    assert_eq!(entry("1A"), "1");
    assert_eq!(entry("\n"), "");
    assert_eq!(entry(""), "");
    assert_eq!(entry("héé"), "hé");
}

#[test]
fn empty_line_selects_nothing() {
    for menu in [Menu::Main, Menu::HelloTriangle, Menu::Shaders, Menu::Textures] {
        assert_eq!(select(menu, ""), Choice::Invalid);
        assert_eq!(select(menu, "\n"), Choice::Invalid);
    }
}

#[test]
fn hello_triangle_menu_entries() {
    let menu = Menu::HelloTriangle;
    assert_eq!(select(menu, "1\n"), Choice::Run(Example::TriangleBasic));
    assert_eq!(select(menu, "2\n"), Choice::Run(Example::TriangleIndexed));
    assert_eq!(select(menu, "3\n"), Choice::Run(Example::TriangleExercise1));
    assert_eq!(select(menu, "4\n"), Choice::Run(Example::TriangleExercise2));
    assert_eq!(select(menu, "5\n"), Choice::Run(Example::TriangleExercise3));
    assert_eq!(select(menu, "6\n"), Choice::Invalid);
    assert_eq!(select(menu, "0\n"), Choice::Invalid);
    assert_eq!(select(menu, "11\n"), Choice::Invalid);
    assert_eq!(select(menu, "1A\n"), Choice::Invalid);
}

#[test]
fn shaders_menu_entries() {
    let menu = Menu::Shaders;
    assert_eq!(select(menu, "1\n"), Choice::Run(Example::ShadersUniform));
    assert_eq!(select(menu, "2\n"), Choice::Run(Example::ShadersAttributes));
    assert_eq!(select(menu, "3\n"), Choice::Run(Example::ShadersFromFile));
    assert_eq!(select(menu, "4\n"), Choice::Run(Example::ShadersUpsideDown));
    assert_eq!(select(menu, "5\n"), Choice::Run(Example::ShadersOffset));
    assert_eq!(select(menu, "6\n"), Choice::Run(Example::ShadersPosition));
    assert_eq!(select(menu, "7\n"), Choice::Invalid);
    assert_eq!(select(menu, "9\n"), Choice::Invalid);
}

#[test]
fn textures_menu_entries() {
    let menu = Menu::Textures;
    assert_eq!(select(menu, "1\n"), Choice::Run(Example::LoadTexture));
    assert_eq!(select(menu, "2\n"), Choice::Run(Example::TextureUnits));
    assert_eq!(select(menu, "3\n"), Choice::Run(Example::TextureWrapping));
    assert_eq!(select(menu, "4\n"), Choice::Run(Example::TextureCropZoom));
    assert_eq!(select(menu, "5\n"), Choice::Run(Example::VariableOpacity));
    assert_eq!(select(menu, "6\n"), Choice::Invalid);
    assert_eq!(select(menu, "x\n"), Choice::Invalid);
}

#[test]
fn invalid_input_names_the_entry() {
    assert_eq!(invalid_input("9Z\n"), "Invalid input 9Z.");
    assert_eq!(invalid_input("\n"), "Invalid input .");
    assert_eq!(invalid_input(""), "Invalid input .");
    assert_eq!(invalid_input("1A"), "Invalid input 1.");
}
