use pylibgrit::config::{config_value_result, ConfigSet};
use pylibgrit::error::ErrorClass;
use pylibgrit::index::IndexEntry;
use pylibgrit::oid::ObjectId;
use pylibgrit::progress::ProgressRelay;
use pylibgrit::revwalk::RevWalk;

const A: &str = "1111111111111111111111111111111111111111";
const B: &str = "2222222222222222222222222222222222222222";

fn id(h: &str) -> ObjectId {
    ObjectId::from_hex(h).unwrap()
}

fn config(pairs: &[(&str, &str)]) -> ConfigSet {
    let mut set = grit_lib::config::ConfigSet::new();
    for (k, v) in pairs {
        set.add_command_override(k, v).unwrap();
    }
    ConfigSet::new(set)
}

#[test]
fn config_strings_last_value_wins() {
    let c = config(&[("user.email", "a@x"), ("user.email", "b@x"), ("Core.Bare", "false")]);
    assert_eq!(c.get_str("user.email"), Some("b@x".to_string()));
    assert_eq!(c.get_str("core.bare"), Some("false".to_string()));
    assert_eq!(c.get_str("user.name"), None);
    assert_eq!(c.get_str("nodot"), None);
}

#[test]
fn config_booleans() {
    let c = config(&[("core.bare", "yes"), ("core.filemode", "off"), ("core.weird", "maybe")]);
    assert_eq!(c.get_bool("core.bare").unwrap(), Some(true));
    assert_eq!(c.get_bool("core.filemode").unwrap(), Some(false));
    assert_eq!(c.get_bool("core.absent").unwrap(), None);
    let e = c.get_bool("core.weird").unwrap_err();
    assert_eq!(e.class, ErrorClass::ValueError);
    assert!(e.message.starts_with("config key \"core.weird\": "));
}

#[test]
fn config_integers() {
    let c = config(&[("pack.window", "10"), ("core.bigfilethreshold", "2k"), ("core.bad", "ten")]);
    assert_eq!(c.get_int("pack.window").unwrap(), Some(10));
    assert_eq!(c.get_int("core.bigfilethreshold").unwrap(), Some(2048));
    assert_eq!(c.get_int("core.none").unwrap(), None);
    let e = c.get_int("core.bad").unwrap_err();
    assert!(e.message.starts_with("config key \"core.bad\": "));
}

#[test]
fn typed_answers() {
    assert_eq!(config_value_result::<i64>("k.x", None).unwrap(), None);
    assert_eq!(config_value_result::<i64>("k.x", Some(Ok(3))).unwrap(), Some(3));
    let e = config_value_result::<i64>("k.x", Some(Err("nope".to_string()))).unwrap_err();
    assert_eq!(e.message, "config key \"k.x\": nope");
}

#[test]
fn index_entry_fields() {
    let e = IndexEntry::new(b"src/lib.rs".to_vec(), id(A), 0o100644, (1, 2), (3, 4), 5, 6, 7, 8, 9, 0);
    assert_eq!(e.path(), b"src/lib.rs".to_vec());
    assert_eq!(e.oid().hex(), A);
    assert_eq!(e.mode(), 0o100644);
    assert_eq!(e.ctime(), (1, 2));
    assert_eq!(e.mtime(), (3, 4));
    assert_eq!((e.dev(), e.ino(), e.uid(), e.gid(), e.size(), e.flags()), (5, 6, 7, 8, 9, 0));
}

#[test]
fn revwalk_hands_out_ids_in_order() {
    let mut w = RevWalk::new(vec![id(B), id(A)]);
    assert_eq!(w.next_oid().unwrap().hex(), B);
    assert_eq!(w.next_oid().unwrap().hex(), A);
    assert!(w.next_oid().is_none());
    assert!(w.next_oid().is_none());
}

#[test]
fn progress_stops_after_a_failure() {
    let mut r = ProgressRelay::new(true);
    assert!(r.delivers());
    r.record(true);
    assert!(r.delivers());
    r.record(false);
    assert!(!r.delivers());
    r.record(true);
    assert!(!r.delivers());
    assert!(!ProgressRelay::new(false).delivers());
}

#[test]
fn pack_reuse_key_reads_booleans_and_skips_its_modes() {
    let c = config(&[("pack.allowPackReuse", "true")]);
    assert_eq!(c.get_bool("pack.allowpackreuse").unwrap(), Some(true));
    let c = config(&[("pack.allowPackReuse", "multi")]);
    assert_eq!(c.get_bool("pack.allowpackreuse").unwrap(), None);
    let c = config(&[("pack.allowPackReuse", "  SinGle ")]);
    assert_eq!(c.get_bool("pack.allowPackReuse").unwrap(), None);
    let c = config(&[("pack.allowPackReuse", "double")]);
    assert!(c.get_bool("pack.allowpackreuse").is_err());
    let c = config(&[("core.bare", "multi")]);
    assert!(c.get_bool("core.bare").is_err());
}
