use latexfogel::digits::{parse_u64_dec, u64_to_dec};
use latexfogel::gate::{decode_action_id, encode_action_id, ActionId, ActionKind};
use latexfogel::sandbox::{container_name, RenderRole};

#[test]
fn decimal_rendering() {
    assert_eq!(u64_to_dec(0), b"0".to_vec());
    assert_eq!(u64_to_dec(7), b"7".to_vec());
    assert_eq!(u64_to_dec(10), b"10".to_vec());
    assert_eq!(u64_to_dec(987654321), b"987654321".to_vec());
    assert_eq!(u64_to_dec(u64::MAX), b"18446744073709551615".to_vec());
}

#[test]
fn decimal_parsing() {
    assert_eq!(parse_u64_dec(&b"0".to_vec()), Some(0));
    assert_eq!(parse_u64_dec(&b"007".to_vec()), Some(7));
    assert_eq!(parse_u64_dec(&b"18446744073709551615".to_vec()), Some(u64::MAX));
    assert_eq!(parse_u64_dec(&b"18446744073709551616".to_vec()), None);
    assert_eq!(parse_u64_dec(&b"99999999999999999999999".to_vec()), None);
    assert_eq!(parse_u64_dec(&b"".to_vec()), None);
    assert_eq!(parse_u64_dec(&b"12a".to_vec()), None);
    assert_eq!(parse_u64_dec(&b"-5".to_vec()), None);
}

#[test]
fn decimal_round_trip() {
    for n in [0u64, 1, 9, 10, 99, 100, 140579104222085121, u64::MAX] {
        assert_eq!(parse_u64_dec(&u64_to_dec(n)), Some(n));
    }
}

#[test]
fn action_id_encoding() {
    let delete = ActionId { kind: ActionKind::Delete, owner: 42 };
    assert_eq!(encode_action_id(delete), b"delete42".to_vec());
    let widen = ActionId { kind: ActionKind::Widen, owner: 7001 };
    assert_eq!(encode_action_id(widen), b"widen7001".to_vec());
}

#[test]
fn action_id_round_trip() {
    for kind in [ActionKind::Delete, ActionKind::Widen] {
        for owner in [0u64, 1, 140579104222085121, u64::MAX] {
            let id = ActionId { kind, owner };
            assert_eq!(decode_action_id(&encode_action_id(id)), Some(id));
        }
    }
}

#[test]
fn action_id_rejects_garbage() {
    assert_eq!(decode_action_id(&b"".to_vec()), None);
    assert_eq!(decode_action_id(&b"delete".to_vec()), None);
    assert_eq!(decode_action_id(&b"widen".to_vec()), None);
    assert_eq!(decode_action_id(&b"deletex".to_vec()), None);
    assert_eq!(decode_action_id(&b"widen12x".to_vec()), None);
    assert_eq!(decode_action_id(&b"delete18446744073709551616".to_vec()), None);
    assert_eq!(decode_action_id(&b"refresh7".to_vec()), None);
}

#[test]
fn container_names_are_role_and_id_specific() {
    assert_eq!(container_name(RenderRole::Latex, 42), b"slave-latex-42".to_vec());
    assert_eq!(container_name(RenderRole::Typst, 42), b"slave-typst-42".to_vec());
    assert_eq!(container_name(RenderRole::Latex, 0), b"slave-latex-0".to_vec());
    assert_ne!(
        container_name(RenderRole::Latex, 1),
        container_name(RenderRole::Latex, 2)
    );
    assert_ne!(
        container_name(RenderRole::Latex, 1),
        container_name(RenderRole::Typst, 1)
    );
}
