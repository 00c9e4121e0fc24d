use akurai_monitor::stream::{publish, Msg};

#[test]
fn publishes_once_the_channel_is_ready() {
    let msg = publish(true, "log", "{\"logs\":[]}".to_string());
    assert_eq!(msg, Some(Msg { event: "log", data: "{\"logs\":[]}".to_string() }));
    assert_eq!(publish(false, "log", String::new()), None);
}
