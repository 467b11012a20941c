use custom_widget::animated_button::TimesClicked;
use custom_widget::message::{G, J, R};

#[test]
fn was_clicked_after_clicks() {
    assert!(TimesClicked(1).was_clicked());
    assert!(TimesClicked(5).was_clicked());
}

#[test]
fn was_not_clicked_without_clicks() {
    assert!(!TimesClicked(0).was_clicked());
}

#[test]
fn next_drains_pending_clicks() {
    let mut times = TimesClicked(2);
    assert_eq!(times.next(), Some(()));
    assert_eq!(times.next(), Some(()));
    assert_eq!(times.next(), None);
    assert_eq!(times.next(), None);
}

#[test]
fn j_is_an_event_source() {
    assert!(<J as G>::is_event());
    assert!(!<J as G>::is_socket());
    let j = J { content: 34 };
    assert_eq!(j.get_content(), 34);
}

#[test]
fn r_is_a_socket_source() {
    assert!(!<R as G>::is_event());
    assert!(<R as G>::is_socket());
    let r = R { content: "asdas" };
    assert_eq!(r.get_content(), "asdas");
}
