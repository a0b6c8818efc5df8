use hyprland::ctl::instance::Instance;
use hyprland::error::HyprError;
use hyprland::shared::{get_hypr_path, CommandContent, CommandFlag};
use hyprland::transport::{decode, Connecting, Progress, Reading, Writing};

fn instance(name: &str) -> Instance {
    Instance { instance: name.to_string(), time: 1, pid: 2, wl_socket: "wayland-1".to_string() }
}

fn exchange(peer: Vec<Result<Vec<u8>, String>>) -> Result<String, HyprError> {
    let content = CommandContent::new(CommandFlag::Empty, "reload".to_string());
    let connecting = instance("abc_1_xyz").write_to_socket(&content);
    let writing = connecting.connected(Ok(()))?;
    let mut reading = writing.written(Ok(()))?;
    for outcome in peer {
        match reading.received(outcome) {
            Progress::More(next) => reading = next,
            Progress::Done(result) => return result,
        }
    }
    panic!("the peer never closed");
}

#[test]
fn wire_form_of_commands() {
    let plain = CommandContent::new(CommandFlag::Empty, "reload".to_string());
    assert_eq!(plain.to_string(), "/reload");
    assert_eq!(plain.as_bytes(), b"/reload".to_vec());
    let json = CommandContent::new(CommandFlag::JSON, "plugin list".to_string());
    assert_eq!(json.to_string(), "j/plugin list");
    assert_eq!(json.as_bytes(), b"j/plugin list".to_vec());
    let wide = CommandContent::new(CommandFlag::Empty, "seterror \u{e9}".to_string());
    assert_eq!(wide.as_bytes(), "/seterror \u{e9}".as_bytes().to_vec());
    let empty = CommandContent::new(CommandFlag::JSON, String::new());
    assert_eq!(empty.as_bytes(), b"j/".to_vec());
}

#[test]
fn exchange_is_addressed_by_the_instance_name_alone() {
    let content = CommandContent::new(CommandFlag::Empty, "kill".to_string());
    let one = instance("abc_1_xyz").write_to_socket(&content);
    let other = Instance {
        instance: "abc_1_xyz".to_string(),
        time: 99,
        pid: 98,
        wl_socket: "other".to_string(),
    }
    .write_to_socket(&content);
    assert_eq!(one, other);
    assert_eq!(one.instance, "abc_1_xyz");
    assert_eq!(one.payload, b"/kill".to_vec());
    assert_eq!(one.socket_path("/run/user/1000/hypr"), "/run/user/1000/hypr/abc_1_xyz/.socket.sock");
}

#[test]
fn echo_round_trip() {
    assert_eq!(exchange(vec![Ok(b"ok".to_vec()), Ok(vec![])]), Ok("ok".to_string()));
}

#[test]
fn response_in_many_chunks() {
    let text = "first line\nsecond \u{e9}\u{1f600} line\n";
    let bytes = text.as_bytes();
    let mut cut = 0;
    while cut <= bytes.len() {
        let mut peer = Vec::new();
        if cut > 0 {
            peer.push(Ok(bytes[..cut].to_vec()));
        }
        if cut < bytes.len() {
            peer.push(Ok(bytes[cut..].to_vec()));
        }
        peer.push(Ok(vec![]));
        assert_eq!(exchange(peer), Ok(text.to_string()));
        cut += 1;
    }
    let single: Vec<Result<Vec<u8>, String>> =
        bytes.iter().map(|b| Ok(vec![*b])).chain(std::iter::once(Ok(vec![]))).collect();
    assert_eq!(exchange(single), Ok(text.to_string()));
}

#[test]
fn empty_response() {
    assert_eq!(exchange(vec![Ok(vec![])]), Ok(String::new()));
}

#[test]
fn full_buffer_is_not_the_end() {
    let block = vec![b'x'; 8192];
    let got = exchange(vec![Ok(block.clone()), Ok(block.clone()), Ok(b"tail".to_vec()), Ok(vec![])]);
    let mut want = "x".repeat(16384);
    want.push_str("tail");
    assert_eq!(got, Ok(want));
}

#[test]
fn missing_socket_is_a_connectivity_error() {
    let content = CommandContent::new(CommandFlag::Empty, "reload".to_string());
    let connecting = instance("gone_1_x").write_to_socket(&content);
    let outcome = connecting.connected(Err("No such file or directory".to_string()));
    assert_eq!(outcome, Err(HyprError::Connectivity("No such file or directory".to_string())));
}

#[test]
fn connected_exchange_writes_the_payload() {
    let connecting = Connecting { instance: "a".to_string(), payload: b"/reload".to_vec() };
    assert_eq!(connecting.connected(Ok(())), Ok(Writing { payload: b"/reload".to_vec() }));
}

#[test]
fn failed_write_is_a_transport_error() {
    let writing = Writing { payload: b"/reload".to_vec() };
    assert_eq!(
        writing.written(Err("Broken pipe".to_string())),
        Err(HyprError::Transport("Broken pipe".to_string()))
    );
    let writing = Writing { payload: b"/reload".to_vec() };
    assert_eq!(writing.written(Ok(())), Ok(Reading { response: vec![] }));
}

#[test]
fn failed_read_is_a_transport_error_and_drops_the_partial_response() {
    let got = exchange(vec![Ok(b"par".to_vec()), Err("Connection reset".to_string())]);
    assert_eq!(got, Err(HyprError::Transport("Connection reset".to_string())));
}

#[test]
fn read_adds_to_the_response() {
    let reading = Reading { response: b"ab".to_vec() };
    assert_eq!(
        reading.received(Ok(b"cd".to_vec())),
        Progress::More(Reading { response: b"abcd".to_vec() })
    );
    let reading = Reading { response: b"ab".to_vec() };
    assert_eq!(reading.received(Ok(vec![])), Progress::Done(Ok("ab".to_string())));
}

#[test]
fn invalid_utf8_is_a_decode_error() {
    let got = exchange(vec![Ok(vec![b'o', 0xff, b'k']), Ok(vec![])]);
    assert_eq!(got, Err(HyprError::Decode("response is not valid UTF-8".to_string())));
    assert!(matches!(decode(vec![0xc3]), Err(HyprError::Decode(_))));
    assert!(matches!(decode(vec![0xed, 0xa0, 0x80]), Err(HyprError::Decode(_))));
    assert_eq!(decode(vec![0xc3, 0xa9]), Ok("\u{e9}".to_string()));
    assert_eq!(decode(vec![]), Ok(String::new()));
}

#[test]
fn character_cut_between_chunks_is_whole_again() {
    let got = exchange(vec![Ok(vec![0xc3]), Ok(vec![0xa9]), Ok(vec![])]);
    assert_eq!(got, Ok("\u{e9}".to_string()));
}

#[test]
fn runtime_directory() {
    assert_eq!(get_hypr_path(Some("/run/user/1000"), Some("1000")), Ok("/run/user/1000/hypr".to_string()));
    assert_eq!(get_hypr_path(Some("/tmp/x"), None), Ok("/tmp/x/hypr".to_string()));
    assert_eq!(get_hypr_path(None, Some("1000")), Ok("/run/user/1000/hypr".to_string()));
    assert_eq!(
        get_hypr_path(None, None),
        Err("Could not find XDG_RUNTIME_DIR or UID".to_string())
    );
}
