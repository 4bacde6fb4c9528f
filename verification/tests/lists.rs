use download_manager::dev::DevList;
use download_manager::list_state::ListState;

fn list(len: usize, selected: Option<usize>) -> ListState<u32> {
    let mut l: ListState<u32> = ListState::new();
    l.items = (0..len as u32).collect();
    l.state.select(selected);
    l
}

#[test]
fn move_down_selects_first_when_none() {
    let mut l = list(3, None);
    l.move_down();
    assert_eq!(l.state.selected(), Some(0));
}

#[test]
fn move_down_wraps() {
    let mut l = list(3, Some(1));
    l.move_down();
    assert_eq!(l.state.selected(), Some(2));
    l.move_down();
    assert_eq!(l.state.selected(), Some(0));
}

#[test]
fn move_up_wraps() {
    let mut l = list(3, Some(0));
    l.move_up();
    assert_eq!(l.state.selected(), Some(2));
    l.move_up();
    assert_eq!(l.state.selected(), Some(1));
    let mut n = list(3, None);
    n.move_up();
    assert_eq!(n.state.selected(), Some(0));
}

#[test]
fn down_then_up_and_full_cycle() {
    for start in 0..5 {
        let mut l = list(5, Some(start));
        l.move_down();
        l.move_up();
        assert_eq!(l.state.selected(), Some(start));
        for _ in 0..5 {
            l.move_down();
        }
        assert_eq!(l.state.selected(), Some(start));
    }
}

#[test]
fn empty_list_from_none() {
    let mut l = list(0, None);
    l.move_down();
    assert_eq!(l.state.selected(), Some(0));
    let mut u = list(0, None);
    u.move_up();
    assert_eq!(u.state.selected(), Some(0));
}

#[test]
fn default_list_is_empty() {
    let l: ListState<String> = ListState::default();
    assert!(l.items.is_empty());
    assert_eq!(l.state.selected(), None);
}

#[test]
fn sample_list_contents() {
    let l = DevList::list();
    assert_eq!(l.items.len(), 12);
    assert_eq!(l.state.selected(), None);
    assert_eq!(l.items[0].name, "Parallel");
    assert_eq!(l.items[0].url, "");
    assert_eq!(l.items[1].name, "ubuntu-24.04.2-desktop-amd64.iso");
    assert_eq!(l.items[1].size, "5.9 GiB");
    assert_eq!(l.items[8].name, "Sequential");
    assert_eq!(l.items[11].url, "https://github.com/opencv/opencv/archive/refs/tags/4.11.0.zip");
}

#[test]
fn sample_row_cells() {
    let d = DevList::new("n".to_string(), "u".to_string(), "s".to_string());
    assert_eq!(d.cells(), vec!["n".to_string(), "s".to_string(), "u".to_string()]);
}
