use pylibgrit::error::ErrorClass;
use pylibgrit::oid::ObjectId;
use pylibgrit::push::{build_push_report, default_push_dst, plan_parsed_refspec, plan_push, plan_push_refspec,
    RefspecParts, push_dst_candidates,
    push_status_str, PushPlan, PushRefOutcome, PushSpec, PushStatus, RefspecPlan};
use pylibgrit::remote::{branch_not_found, branch_upstream_config, build_fetch_options, build_fetch_report, ls_remote,
    ls_remote_transport,
    origin_config, plan_clone_branch, update_mode_str, FetchUpdate, TagMode, UpdateMode};
use pylibgrit::transport::{classify, reject_creds_for_ssh, resolve_url_credentials, split_userinfo, Scheme};

const A: &str = "1111111111111111111111111111111111111111";
const B: &str = "2222222222222222222222222222222222222222";

fn id(h: &str) -> ObjectId {
    ObjectId::from_hex(h).unwrap()
}

#[test]
fn url_schemes() {
    assert_eq!(classify("git://host/repo").unwrap(), Scheme::Git);
    assert_eq!(classify("https://host/repo").unwrap(), Scheme::Http);
    assert_eq!(classify("http://host/repo").unwrap(), Scheme::Http);
    assert_eq!(classify("ssh://git@host/repo").unwrap(), Scheme::Ssh);
    assert_eq!(classify("git+ssh://host/repo").unwrap(), Scheme::Ssh);
    assert_eq!(classify("git@host:repo.git").unwrap(), Scheme::Ssh);
    let e = classify("ftp://host/repo").unwrap_err();
    assert_eq!(e.class, ErrorClass::NetworkError);
    assert_eq!(
        e.message,
        "unsupported transport for URL \"ftp://host/repo\"; supported schemes: git://, http://, https://, ssh:// (and scp-style host:path)"
    );
}

#[test]
fn ssh_refuses_explicit_credentials() {
    let e = reject_creds_for_ssh("ssh://h/r", &Some("u".to_string()), &None).unwrap_err();
    assert_eq!(e.class, ErrorClass::ValueError);
    assert!(reject_creds_for_ssh("ssh://h/r", &None, &None).is_ok());
    assert!(reject_creds_for_ssh("https://h/r", &Some("u".to_string()), &None).is_ok());
}

#[test]
fn userinfo_is_split_off() {
    assert_eq!(
        split_userinfo("https://tok@host/x"),
        ("https://host/x".to_string(), Some(("tok".to_string(), None)))
    );
    assert_eq!(
        split_userinfo("https://u:p@host/x@y"),
        ("https://host/x@y".to_string(), Some(("u".to_string(), Some("p".to_string()))))
    );
    assert_eq!(split_userinfo("https://@host/x"), ("https://@host/x".to_string(), None));
    assert_eq!(split_userinfo("no-scheme"), ("no-scheme".to_string(), None));
}

#[test]
fn explicit_credentials_win_over_userinfo() {
    let (url, u, p) = resolve_url_credentials("https://a:b@host/r", Some("x".to_string()), None);
    assert_eq!(url, "https://host/r");
    assert_eq!(u, Some("x".to_string()));
    assert_eq!(p, Some("b".to_string()));
    let (_, u, p) = resolve_url_credentials("https://host/r", None, None);
    assert_eq!((u, p), (None, None));
}

#[test]
fn refspec_planning() {
    match plan_push_refspec("+main:refs/heads/dev", false).unwrap() {
        RefspecPlan::Push { src, dst, force } => {
            assert_eq!(src, "main");
            assert_eq!(dst, Some("refs/heads/dev".to_string()));
            assert!(force);
        },
        _ => panic!("a push"),
    }
    match plan_push_refspec(":refs/heads/old", true).unwrap() {
        RefspecPlan::Delete(r) => {
            assert_eq!(r.dst, "refs/heads/old");
            assert!(r.delete && r.force && r.src.is_none());
        },
        _ => panic!("a delete"),
    }
    let e = plan_push_refspec(":", false).unwrap_err();
    assert_eq!(e.class, ErrorClass::ValueError);
}

#[test]
fn destination_inference() {
    assert_eq!(push_dst_candidates("main")[2], "refs/heads/main");
    assert_eq!(default_push_dst("refs/heads/x", &vec![false; 5]).unwrap(), "refs/heads/x");
    assert_eq!(default_push_dst("v1", &vec![false, true, true, false, false]).unwrap(), "refs/tags/v1");
    let e = default_push_dst("HEAD", &vec![false; 5]).unwrap_err();
    assert_eq!(
        e.message,
        "refspec \"HEAD\": cannot infer a destination ref (the source is not a local ref); specify an explicit destination as <src>:<dst>"
    );
}

#[test]
fn empty_push_is_ok_without_contacting_the_remote() {
    match plan_push(0, "ftp://not-even-valid").unwrap() {
        PushPlan::Nothing(r) => {
            assert!(r.ok());
            assert!(r.results().is_empty());
        },
        _ => panic!("nothing to push"),
    }
    assert!(plan_push(1, "ftp://x").is_err());
}

#[test]
fn push_spec_to_ref_spec() {
    let s = PushSpec::new(b"refs/heads/m".to_vec(), Some(id(A)), false, false, Some(id(B)), false);
    assert_eq!(s.dst(), b"refs/heads/m".to_vec());
    let r = s.to_ref_spec(true).unwrap();
    assert_eq!(r.dst, "refs/heads/m");
    assert!(r.force);
    assert_eq!(r.expected_old.unwrap().hex(), B);
}

fn outcome(status: PushStatus) -> PushRefOutcome {
    PushRefOutcome {
        local_ref: Some("refs/heads/m".to_string()),
        remote_ref: "refs/heads/m".to_string(),
        old_oid: Some(id(A)),
        new_oid: Some(id(B)),
        forced: false,
        deletion: false,
        status,
        message: None,
    }
}

#[test]
fn push_report_ok_iff_every_ref_succeeded() {
    let r = build_push_report(vec![outcome(PushStatus::Updated), outcome(PushStatus::UpToDate)]);
    assert!(r.ok());
    assert_eq!(r.results()[0].status(), "ok");
    assert_eq!(r.results()[1].status(), "up-to-date");
    let r = build_push_report(vec![outcome(PushStatus::Updated), outcome(PushStatus::RejectStale)]);
    assert!(!r.ok());
    assert_eq!(r.results()[1].status(), "reject-stale");
    assert!(build_push_report(Vec::new()).ok());
    assert_eq!(push_status_str(PushStatus::AtomicPushFailed), "atomic-push-failed");
}

#[test]
fn ls_remote_rows() {
    let adv = vec![
        ("refs/heads/main".to_string(), id(A)),
        ("refs/tags/v1".to_string(), id(B)),
    ];
    let head = Some("refs/heads/main".to_string());
    let all = ls_remote(&adv, &head, false, false);
    assert_eq!(all.len(), 3);
    assert_eq!(all[0].name(), b"HEAD".to_vec());
    assert_eq!(all[0].oid().hex(), A);
    assert_eq!(all[0].symref_target(), Some(b"refs/heads/main".to_vec()));
    assert_eq!(all[2].name(), b"refs/tags/v1".to_vec());
    let heads = ls_remote(&adv, &head, true, false);
    assert_eq!(heads.len(), 1);
    assert_eq!(heads[0].name(), b"refs/heads/main".to_vec());
    let tags = ls_remote(&adv, &head, false, true);
    assert_eq!(tags.len(), 1);
    assert_eq!(tags[0].name(), b"refs/tags/v1".to_vec());
    let both = ls_remote(&adv, &head, true, true);
    assert_eq!(both.len(), 2);
    assert_eq!(both[0].name(), b"refs/heads/main".to_vec());
    assert_eq!(both[1].name(), b"refs/tags/v1".to_vec());
    assert!(both.iter().all(|r| r.symref_target().is_none()));
    let no_head = ls_remote(&adv, &Some("refs/heads/gone".to_string()), false, false);
    assert_eq!(no_head.len(), 2);
}

#[test]
fn fetch_options() {
    let o = build_fetch_options(None, "following", true).unwrap();
    assert_eq!(o.refspecs, vec!["+refs/heads/*:refs/remotes/origin/*".to_string()]);
    assert_eq!(o.tags, TagMode::Following);
    assert!(o.prune);
    assert_eq!(build_fetch_options(Some(vec!["a:b".to_string()]), "none", false).unwrap().tags, TagMode::NoTags);
    assert_eq!(build_fetch_options(None, "all", false).unwrap().tags, TagMode::All);
    let e = build_fetch_options(None, "some", false).unwrap_err();
    assert_eq!(e.class, ErrorClass::ValueError);
    assert_eq!(e.message, "tags must be 'none', 'following', or 'all' (got \"some\")");
}

#[test]
fn fetch_report() {
    let r = build_fetch_report(
        vec![FetchUpdate {
            remote_ref: "refs/heads/main".to_string(),
            local_ref: Some("refs/remotes/origin/main".to_string()),
            old_oid: None,
            new_oid: Some(id(A)),
            mode: UpdateMode::New,
            note: None,
        }],
        Some("refs/heads/main".to_string()),
    );
    assert_eq!(r.updates().len(), 1);
    assert_eq!(r.updates()[0].mode(), "new");
    assert_eq!(r.updates()[0].local_ref(), Some(b"refs/remotes/origin/main".to_vec()));
    assert_eq!(r.default_branch(), Some(b"refs/heads/main".to_vec()));
    assert_eq!(update_mode_str(UpdateMode::FastForward), "fast-forward");
}

#[test]
fn clone_branch_choice() {
    let c = plan_clone_branch(None, Some("refs/heads/trunk".to_string())).unwrap();
    assert_eq!(c.name, "trunk");
    assert_eq!(c.local_head, "refs/heads/trunk");
    assert_eq!(c.tracking, "refs/remotes/origin/trunk");
    let c = plan_clone_branch(Some("dev".to_string()), Some("refs/heads/trunk".to_string())).unwrap();
    assert_eq!(c.name, "dev");
    let e = plan_clone_branch(None, None).unwrap_err();
    assert_eq!(e.class, ErrorClass::NetworkError);
    assert_eq!(e.message, "remote did not advertise a default branch; pass branch=");
    assert_eq!(branch_not_found("x").message, "branch \"x\" not found on remote");
    let o = origin_config("git://h/r");
    assert_eq!(o[0], ("remote.origin.url".to_string(), "git://h/r".to_string()));
    assert_eq!(o[1].1, "+refs/heads/*:refs/remotes/origin/*");
    let u = branch_upstream_config("main", "refs/heads/main");
    assert_eq!(u[0], ("branch.main.remote".to_string(), "origin".to_string()));
    assert_eq!(u[1], ("branch.main.merge".to_string(), "refs/heads/main".to_string()));
}

#[test]
fn ls_remote_refuses_ssh_credentials_before_connecting() {
    let user = Some("u".to_string());
    let e = ls_remote_transport("git@host:repo.git", &user, &None).unwrap_err();
    assert_eq!(e.class, ErrorClass::ValueError);
    let e = ls_remote_transport("ssh://host/r", &None, &Some("pw".to_string())).unwrap_err();
    assert_eq!(e.class, ErrorClass::ValueError);
    assert_eq!(ls_remote_transport("ssh://host/r", &None, &None).unwrap(), Scheme::Ssh);
    assert_eq!(ls_remote_transport("https://host/r", &user, &None).unwrap(), Scheme::Http);
    assert_eq!(ls_remote_transport("git://host/r", &user, &None).unwrap(), Scheme::Git);
    let e = ls_remote_transport("ftp://host/r", &user, &None).unwrap_err();
    assert_eq!(e.class, ErrorClass::NetworkError);
}

#[test]
fn ssh_addresses_follow_the_scp_rule() {
    assert_eq!(classify("  ssh://host/r ").unwrap(), Scheme::Ssh);
    assert_eq!(classify("host:dir/repo").unwrap(), Scheme::Ssh);
    assert!(classify("./dir:x").is_err());
    assert!(classify("/srv/repo").is_err());
    assert!(classify("ext::ssh host").is_err());
}

fn parts(force: bool, matching: bool, src: Option<&str>, dst: Option<&str>) -> RefspecParts {
    RefspecParts { force, matching, src: src.map(str::to_string), dst: dst.map(str::to_string) }
}

#[test]
fn parsed_refspec_planning() {
    match plan_parsed_refspec("main", parts(false, false, Some("main"), None), true).unwrap() {
        RefspecPlan::Push { src, dst, force } => {
            assert_eq!(src, "main");
            assert_eq!(dst, None);
            assert!(force);
        },
        _ => panic!("a push"),
    }
    match plan_parsed_refspec(":x", parts(false, false, Some(""), Some("refs/heads/x")), false).unwrap() {
        RefspecPlan::Delete(r) => {
            assert_eq!(r.dst, "refs/heads/x");
            assert!(r.delete && !r.force && r.src.is_none() && r.expected_old.is_none() && !r.expect_absent);
        },
        _ => panic!("a delete"),
    }
    let e = plan_parsed_refspec(":", parts(false, true, None, None), false).unwrap_err();
    assert_eq!(e.class, ErrorClass::ValueError);
    assert_eq!(
        e.message,
        "the matching refspec \":\" (push all matching refs) is not supported; specify explicit refspecs"
    );
    let e = plan_parsed_refspec("+", parts(true, false, None, None), false).unwrap_err();
    assert_eq!(e.message, "delete refspec \"+\" needs a destination (e.g. \":refs/heads/<name>\")");
}
