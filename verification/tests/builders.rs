use frameless_editor::widgets::titlebar::{Gesture, Role, TitleBar};

fn bar() -> TitleBar<'static, u8, String> {
    TitleBar::new_at(1, 2, 77)
}

fn element(name: &str) -> String {
    name.to_string()
}

const ROLES: [Role; 5] = [Role::Icon, Role::TabLine, Role::Minimise, Role::Maximise, Role::Close];

#[test]
fn new_bar_is_empty() {
    let bar = bar();
    assert!(bar.children().is_empty());
    for role in ROLES {
        assert_eq!(bar.index_of(role), None);
    }
    assert_eq!(bar.title(), None);
    assert_eq!(bar.last_pressed(), 77);
    assert_eq!(*bar.message(Gesture::Drag), 1);
    assert_eq!(*bar.message(Gesture::ToggleMaximise), 2);
}

#[test]
fn close_button_twice_replaces() {
    let once = bar().with_minimise_button(element("min")).with_close_button(element("first"))
        .with_maximise_button(element("max"));
    assert_eq!(once.children().len(), 3);
    assert_eq!(once.index_of(Role::Close), Some(1));
    let twice = once.with_close_button(element("second"));
    assert_eq!(twice.children().len(), 3);
    assert_eq!(twice.index_of(Role::Close), Some(1));
    assert_eq!(*twice.children(), vec![element("min"), element("second"), element("max")]);
    assert_eq!(twice.index_of(Role::Minimise), Some(0));
    assert_eq!(twice.index_of(Role::Maximise), Some(2));
}

#[test]
fn close_button_twice_on_an_empty_bar() {
    let bar = bar().with_close_button(element("first")).with_close_button(element("second"));
    assert_eq!(*bar.children(), vec![element("second")]);
    assert_eq!(bar.index_of(Role::Close), Some(0));
}

#[test]
fn every_role_is_a_slot_of_its_own() {
    let bar = bar().with_icon(element("icon")).with_tab_line(element("tabs"))
        .with_minimise_button(element("min")).with_maximise_button(element("max"))
        .with_close_button(element("close"));
    assert_eq!(
        *bar.children(),
        vec![element("icon"), element("tabs"), element("min"), element("max"), element("close")]
    );
    assert_eq!(bar.index_of(Role::Icon), Some(0));
    assert_eq!(bar.index_of(Role::TabLine), Some(1));
    assert_eq!(bar.index_of(Role::Minimise), Some(2));
    assert_eq!(bar.index_of(Role::Maximise), Some(3));
    assert_eq!(bar.index_of(Role::Close), Some(4));
    let bar = bar.with_icon(element("icon2")).with_tab_line(element("tabs2"))
        .with_minimise_button(element("min2")).with_maximise_button(element("max2"))
        .with_close_button(element("close2"));
    assert_eq!(
        *bar.children(),
        vec![element("icon2"), element("tabs2"), element("min2"), element("max2"), element("close2")]
    );
    assert_eq!(bar.index_of(Role::Close), Some(4));
}

#[test]
fn children_keep_the_order_of_first_assignment() {
    let bar = bar().with_close_button(element("close")).with_icon(element("icon"))
        .with_close_button(element("close2")).with_minimise_button(element("min"));
    assert_eq!(*bar.children(), vec![element("close2"), element("icon"), element("min")]);
    assert_eq!(bar.index_of(Role::Close), Some(0));
    assert_eq!(bar.index_of(Role::Icon), Some(1));
    assert_eq!(bar.index_of(Role::Minimise), Some(2));
    assert_eq!(bar.index_of(Role::Maximise), None);
    assert_eq!(bar.index_of(Role::TabLine), None);
}

#[test]
fn with_element_is_what_the_named_builders_do() {
    for (position, role) in ROLES.iter().enumerate() {
        let mut built = bar();
        for earlier in &ROLES[..position] {
            built = built.with_element(*earlier, element("other"));
        }
        let built = built.with_element(*role, element("first"));
        assert_eq!(built.index_of(*role), Some(position));
        assert_eq!(built.children().len(), position + 1);
        let built = built.with_element(*role, element("second"));
        assert_eq!(built.index_of(*role), Some(position));
        assert_eq!(built.children().len(), position + 1);
        assert_eq!(built.children()[position], element("second"));
    }
}

#[test]
fn number_of_children_is_the_number_of_roles() {
    let mut built = bar();
    let mut expected = 0;
    for round in 0..3 {
        for role in ROLES {
            built = built.with_element(role, element("e"));
            if round == 0 {
                expected += 1;
            }
            assert_eq!(built.children().len(), expected);
        }
    }
    assert_eq!(built.children().len(), 5);
}

#[test]
fn title_is_kept() {
    let bar = bar().with_title("Untitled");
    assert_eq!(bar.title(), Some("Untitled"));
}

#[test]
fn empty_title_is_no_title() {
    assert_eq!(bar().with_title("").title(), None);
    assert_eq!(bar().with_title("a").with_title("").title(), None);
    assert_eq!(bar().with_title("").with_title("b").title(), Some("b"));
    assert_eq!(bar().with_title(" ").title(), Some(" "));
}

#[test]
fn builders_leave_the_rest_alone() {
    let mut bar = bar().with_title("t").with_close_button(element("x"));
    bar.set_last_pressed(5);
    assert_eq!(bar.title(), Some("t"));
    assert_eq!(bar.last_pressed(), 5);
    assert_eq!(*bar.children(), vec![element("x")]);
    assert_eq!(*bar.message(Gesture::Drag), 1);
    assert_eq!(*bar.message(Gesture::ToggleMaximise), 2);
}

#[test]
fn child_mut_changes_one_child_in_place() {
    let mut bar = bar().with_close_button(element("x")).with_icon(element("i"));
    bar.child_mut(1).unwrap().push_str("con");
    assert_eq!(*bar.children(), vec![element("x"), element("icon")]);
    assert_eq!(bar.index_of(Role::Icon), Some(1));
    assert!(bar.child_mut(2).is_none());
    assert_eq!(bar.children().len(), 2);
}

#[test]
fn new_reads_the_clock() {
    let bar: TitleBar<u8, u8> = TitleBar::new(1, 2);
    let year_2020: u128 = 1_577_836_800 * 1_000_000_000;
    assert!(bar.last_pressed() > year_2020);
    assert!(bar.children().is_empty());
    assert_eq!(bar.title(), None);
}
