use phirlie::tips::{pick_startup_tip, resolve_tip};

#[test]
fn startup_tip_defaults_to_greeting() {
    assert_eq!(pick_startup_tip(&[]), "老师,欢迎回来!");
}

#[test]
fn startup_tip_is_one_of_the_list() {
    let tips = ["a", "b", "c"];
    for _ in 0..20 {
        assert!(tips.contains(&pick_startup_tip(&tips)));
    }
}

#[test]
fn chart_tip_kept_or_picked() {
    assert_eq!(resolve_tip(Some("own".to_string()), &[]), "own");
    assert_eq!(resolve_tip(Some("own".to_string()), &["x"]), "own");
    assert_eq!(resolve_tip(None, &["only"]), "only");
    let tips = ["p", "q"];
    for _ in 0..20 {
        let t = resolve_tip(None, &tips);
        assert!(t == "p" || t == "q");
    }
}
