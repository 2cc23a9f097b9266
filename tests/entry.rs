use cli_supervisor::{
    dev_entry_candidates, dist_candidates, expand_home, path_join, should_allow_internal, tsx_candidates,
};

#[test]
fn join_adds_one_separator() {
    assert_eq!(path_join("/a/b", "c.js"), "/a/b/c.js");
    assert_eq!(path_join("/a/b/", "c.js"), "/a/b/c.js");
    assert_eq!(path_join("", "c.js"), "c.js");
}

#[test]
fn tsx_candidates_in_order() {
    assert_eq!(
        tsx_candidates(Some("/work"), Some("/app/bin")),
        vec![
            Some("/work/node_modules/tsx/dist/cli.js".to_string()),
            Some("/app/bin/../node_modules/tsx/dist/cli.js".to_string())
        ]
    );
    assert_eq!(tsx_candidates(None, None), vec![None, None]);
}

#[test]
fn dev_entry_candidates_in_order() {
    assert_eq!(
        dev_entry_candidates(Some("/work")),
        vec![
            Some("/work/packages/server/src/index.ts".to_string()),
            Some("/work/../server/src/index.ts".to_string())
        ]
    );
}

#[test]
fn dist_candidates_cover_every_layout() {
    let all = dist_candidates(Some("/ws"), Some("/opt/app/bin"));
    assert_eq!(all.len(), 28);
    assert_eq!(all[0].as_deref(), Some("/ws/packages/server/dist/bin.js"));
    assert_eq!(all[3].as_deref(), Some("/ws/server/dist/index.js"));
    assert_eq!(all[4].as_deref(), Some("/opt/app/bin/../Resources/server/dist/bin.js"));
    assert_eq!(all[11].as_deref(), Some("/opt/app/bin/../Resources/resources/server/dist/server/index.js"));
    assert_eq!(all[12].as_deref(), Some("/opt/app/bin/../lib/CodeNomad/server/dist/bin.js"));
    assert_eq!(all[27].as_deref(), Some("/opt/app/bin/../lib/codenomad/resources/server/dist/server/index.js"));
    let ws_only = dist_candidates(None, None);
    assert_eq!(ws_only, vec![None, None, None, None]);
}

#[test]
fn internal_navigation_policy() {
    assert!(should_allow_internal("tauri", Some("localhost")));
    assert!(should_allow_internal("file", None));
    assert!(should_allow_internal("http", Some("127.0.0.1")));
    assert!(should_allow_internal("https", Some("localhost")));
    assert!(!should_allow_internal("https", Some("example.com")));
    assert!(!should_allow_internal("http", None));
    assert!(!should_allow_internal("mailto", None));
}

#[test]
fn home_prefix_is_expanded() {
    assert_eq!(
        expand_home("~/.config/codenomad/config.json", Some("/home/me")),
        "/home/me/.config/codenomad/config.json"
    );
    assert_eq!(expand_home("~/~/x", Some("/home/me/")), "/home/me/x");
    assert_eq!(expand_home("~/x", None), "~/x");
    assert_eq!(expand_home("/etc/x", Some("/home/me")), "/etc/x");
    assert_eq!(expand_home("~x", Some("/home/me")), "~x");
}
