use signature_to_keys::signature_generators::eth::trezor::{
    signature_to_hex_string, DeviceEvent, SignAction, Signature, TrezorGeneratorBuilder,
};
use signature_to_keys::{KeyError, SignatureToKeyGenerator};

fn device_signature() -> Signature {
    Signature { r: [0x11; 32], s: [0x22; 32], v: 0x1b }
}

#[test]
fn signing_starts_by_counting_devices() {
    let mut generator = TrezorGeneratorBuilder::default().build();
    assert_eq!(generator.sign_msg_with_trezor("hi", &DeviceEvent::Start), SignAction::FindDevices);
}

#[test]
fn no_device_is_an_error() {
    let mut generator = TrezorGeneratorBuilder::default().build();
    assert_eq!(
        generator.sign_msg_with_trezor("hi", &DeviceEvent::DevicesFound(0)),
        SignAction::Fail(KeyError::DeviceNotFound)
    );
}

#[test]
fn several_devices_are_an_error() {
    let mut generator = TrezorGeneratorBuilder::default().build();
    for count in [2usize, 3, 100, usize::MAX] {
        assert_eq!(
            generator.sign_msg_with_trezor("hi", &DeviceEvent::DevicesFound(count)),
            SignAction::Fail(KeyError::MultipleDevices)
        );
    }
}

#[test]
fn one_device_is_connected_to() {
    let mut generator = TrezorGeneratorBuilder::default().build();
    assert_eq!(
        generator.sign_msg_with_trezor("hi", &DeviceEvent::DevicesFound(1)),
        SignAction::OpenSession
    );
}

#[test]
fn open_session_is_asked_to_sign_message_and_path() {
    let mut generator = TrezorGeneratorBuilder::default().bip32_path("m/44h/60h/0h/0/12").build();
    assert_eq!(
        generator.sign_msg_with_trezor("hi \u{e9}", &DeviceEvent::SessionReady),
        SignAction::SignMessage {
            message: "hi \u{e9}".as_bytes().to_vec(),
            path: vec![0x8000002C, 0x8000003C, 0x80000000, 0, 12],
        }
    );
    assert_ne!(generator.msg(), "hi \u{e9}");
}

#[test]
fn bad_path_stops_signing_once_the_session_is_open() {
    let mut generator = TrezorGeneratorBuilder::default().bip32_path("m/abc").build();
    assert_eq!(generator.sign_msg_with_trezor("hi", &DeviceEvent::Start), SignAction::FindDevices);
    assert_eq!(
        generator.sign_msg_with_trezor("hi", &DeviceEvent::DevicesFound(1)),
        SignAction::OpenSession
    );
    assert_eq!(
        generator.sign_msg_with_trezor("hi", &DeviceEvent::SessionReady),
        SignAction::Fail(KeyError::PathParse)
    );
}

#[test]
fn device_failure_is_reported_and_not_retried() {
    let mut generator = TrezorGeneratorBuilder::default().build();
    assert_eq!(
        generator.sign_msg_with_trezor("hi", &DeviceEvent::Failed),
        SignAction::Fail(KeyError::DeviceCommunication)
    );
    assert_eq!(generator.signature(), Err(KeyError::NotYetSigned));
}

#[test]
fn signature_comes_back_as_text_and_message_is_recorded() {
    let mut generator = TrezorGeneratorBuilder::default().build();
    let action = generator.sign_msg_with_trezor("hi", &DeviceEvent::Signed(device_signature()));
    assert_eq!(action, SignAction::Done(signature_to_hex_string(&device_signature())));
    assert_eq!(
        action,
        SignAction::Done(format!("0x{}{}1b", "11".repeat(32), "22".repeat(32)))
    );
    assert_eq!(generator.msg(), "hi");
    assert_eq!(generator.bip32_path(), "m/44h/60h/11h/0/12");
}

#[test]
fn only_a_signature_changes_the_message() {
    let mut generator = TrezorGeneratorBuilder::default().msg("before").build();
    let events = [
        DeviceEvent::Start,
        DeviceEvent::DevicesFound(0),
        DeviceEvent::DevicesFound(1),
        DeviceEvent::DevicesFound(2),
        DeviceEvent::SessionReady,
        DeviceEvent::Failed,
    ];
    for event in events {
        let _ = generator.sign_msg_with_trezor("after", &event);
        assert_eq!(generator.msg(), "before");
    }
}

#[test]
fn whole_session_with_a_stub_device() {
    let mut generator = TrezorGeneratorBuilder::default().bip32_path("m/44h/60h/0h/0/0").build();
    let mut event = DeviceEvent::Start;
    let mut asked: Vec<&str> = Vec::new();
    let text = loop {
        match generator.sign_msg_with_trezor("test", &event) {
            SignAction::FindDevices => {
                asked.push("find");
                event = DeviceEvent::DevicesFound(1);
            }
            SignAction::OpenSession => {
                asked.push("open");
                event = DeviceEvent::SessionReady;
            }
            SignAction::SignMessage { message, path } => {
                asked.push("sign");
                assert_eq!(message, b"test".to_vec());
                assert_eq!(path, vec![0x8000002C, 0x8000003C, 0x80000000, 0, 0]);
                event = DeviceEvent::Signed(device_signature());
            }
            SignAction::Done(text) => break text,
            SignAction::Fail(e) => panic!("{}", e.message()),
        }
    };
    assert_eq!(asked, vec!["find", "open", "sign"]);
    assert_eq!(text, signature_to_hex_string(&device_signature()));
    assert_eq!(generator.msg(), "test");
}
