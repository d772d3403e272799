use oop::Button;
use oop::Component;
use oop::Draw;
use oop::Screen;
use oop::SelectBox;

fn button(width: u32, height: u32, label: &str) -> Button {
    Button { width, height, label: String::from(label) }
}

fn select_box(width: u32, height: u32, options: &[&str]) -> SelectBox {
    SelectBox {
        width,
        height,
        options: options.iter().map(|o| String::from(*o)).collect(),
    }
}

#[test]
fn single_button_runs() {
    let screen = Screen { components: vec![Component::Button(button(10, 5, "OK"))] };
    let _ = screen.run();
    assert_eq!(screen.components.len(), 1);
    match &screen.components[0] {
        Component::Button(b) => {
            assert_eq!(b.width, 10);
            assert_eq!(b.height, 5);
            assert_eq!(b.label, "OK");
        }
        Component::SelectBox(_) => panic!("the single component must still be the button"),
    }
}

#[test]
fn mixed_components_keep_their_order() {
    let screen = Screen {
        components: vec![
            Component::Button(button(10, 5, "OK")),
            Component::SelectBox(select_box(75, 10, &["Yes", "Maybe", "No"])),
            Component::Button(button(50, 10, "Cancel")),
        ],
    };
    let _ = screen.run();
    assert_eq!(screen.components.len(), 3);
    assert!(matches!(&screen.components[0], Component::Button(b) if b.label == "OK"));
    assert!(matches!(&screen.components[1], Component::SelectBox(s) if s.options.len() == 3));
    assert!(matches!(&screen.components[2], Component::Button(b) if b.label == "Cancel"));
}

#[test]
fn empty_screen_runs_normally() {
    let screen = Screen { components: vec![] };
    let _ = screen.run();
    assert_eq!(screen.components.len(), 0);
}

#[test]
fn repeated_runs_leave_the_screen_unchanged() {
    let screen = Screen {
        components: vec![
            Component::SelectBox(select_box(75, 10, &["Yes", "No"])),
            Component::Button(button(50, 10, "Cancel")),
        ],
    };
    let _ = screen.run();
    let _ = screen.run();
    let _ = screen.run();
    assert_eq!(screen.components.len(), 2);
    assert!(matches!(&screen.components[0], Component::SelectBox(s) if s.width == 75));
    assert!(matches!(&screen.components[1], Component::Button(b) if b.height == 10));
}

#[test]
fn many_components_run() {
    let mut components = Vec::new();
    for i in 0..7u32 {
        components.push(Component::Button(button(i, i + 1, "row")));
    }
    let screen = Screen { components };
    let _ = screen.run();
    assert_eq!(screen.components.len(), 7);
}

#[test]
fn draw_dispatches_on_every_variant() {
    let b = button(1, 2, "a");
    let s = select_box(3, 4, &["x"]);
    let _ = b.draw();
    let _ = s.draw();
    let _ = Component::Button(button(1, 2, "a")).draw();
    let _ = Component::SelectBox(select_box(3, 4, &["x"])).draw();
}

#[test]
fn select_box_holds_its_options() {
    let s = select_box(75, 10, &["Yes", "Maybe", "No"]);
    assert_eq!(s.width, 75);
    assert_eq!(s.height, 10);
    assert_eq!(s.options, vec!["Yes", "Maybe", "No"]);
}
