use ffibridge::{get_allowed_scripts, ScriptBytecodes};

fn scripts() -> ScriptBytecodes {
    ScriptBytecodes {
        peer_to_peer: vec![0x01, 0xab],
        create_account: vec![0x02, 0x0f],
        mint: vec![0x03, 0xff, 0x10],
        rotate_authentication_key: vec![0x04],
    }
}

#[test]
fn registry_names_and_hex() {
    let r = get_allowed_scripts(&scripts());
    let got: Vec<(String, String)> = r.into_iter().map(|e| (e.name, e.hex)).collect();
    assert_eq!(
        got,
        vec![
            ("peer_to_peer_transaction".to_string(), "01ab".to_string()),
            ("create_account_transaction".to_string(), "020f".to_string()),
            ("mint_transaction".to_string(), "03ff10".to_string()),
            ("rotate_authentication_key_transaction".to_string(), "04".to_string()),
        ]
    );
}

#[test]
fn registry_is_stable_across_calls() {
    let a = get_allowed_scripts(&scripts());
    let b = get_allowed_scripts(&scripts());
    assert_eq!(a.len(), 4);
    for (x, y) in a.iter().zip(b.iter()) {
        assert_eq!(x.name, y.name);
        assert_eq!(x.hex, y.hex);
        assert!(x.hex.len() % 2 == 0);
        assert!(x.hex.chars().all(|c| c.is_ascii_digit() || ('a'..='f').contains(&c)));
    }
}

#[test]
fn registry_of_empty_bytecode_is_empty_hex() {
    let s = ScriptBytecodes {
        peer_to_peer: vec![],
        create_account: vec![],
        mint: vec![],
        rotate_authentication_key: vec![],
    };
    for e in get_allowed_scripts(&s) {
        assert_eq!(e.hex, "");
    }
}
