use atrium::codegen::{
    def_order, generated_file_text, module_names, schema_content, record_ids, schema_documentation, schema_location, xrpc_ids, LexUserTypeKind,
    LexiconDoc, HEADER,
};

fn doc(id: &str, main: Option<LexUserTypeKind>) -> LexiconDoc {
    LexiconDoc { id: id.to_string(), main, description: None }
}

fn lexicons() -> Vec<LexiconDoc> {
    vec![
        doc("app.bsky.feed.post", Some(LexUserTypeKind::Record)),
        doc("com.atproto.server.createSession", Some(LexUserTypeKind::XrpcProcedure)),
        doc("app.bsky.actor.profile", Some(LexUserTypeKind::Record)),
        doc("app.bsky.feed.getTimeline", Some(LexUserTypeKind::XrpcQuery)),
        doc("com.atproto.sync.subscribeRepos", Some(LexUserTypeKind::XrpcSubscription)),
        doc("app.bsky.feed.defs", None),
        doc("app.bsky.embed.images", Some(LexUserTypeKind::Object)),
    ]
}

#[test]
fn records_are_listed_in_order() {
    assert_eq!(record_ids(&lexicons()), vec!["app.bsky.actor.profile".to_string(), "app.bsky.feed.post".to_string()]);
    assert!(record_ids(&vec![]).is_empty());
}

#[test]
fn xrpc_methods_are_listed_in_order() {
    assert_eq!(
        xrpc_ids(&lexicons()),
        vec!["app.bsky.feed.getTimeline".to_string(), "com.atproto.server.createSession".to_string()]
    );
}

#[test]
fn schema_locations() {
    assert_eq!(schema_location("app.bsky.feed.post"), ("app/bsky/feed".to_string(), "post.rs".to_string()));
    assert_eq!(
        schema_location("com.atproto.server.createSession"),
        ("com/atproto/server".to_string(), "create_session.rs".to_string())
    );
    assert_eq!(schema_location("single"), ("".to_string(), "single.rs".to_string()));
    assert_eq!(schema_location("a.b."), ("a/b".to_string(), "".to_string()));
}

#[test]
fn generated_text() {
    assert_eq!(schema_documentation("app.bsky.feed.post"), "Definitions for the `app.bsky.feed.post` namespace.");
    assert_eq!(generated_file_text("mod a;"), format!("{HEADER}\nmod a;\n"));
}

fn strings(items: &[&str]) -> Vec<String> {
    items.iter().map(|s| s.to_string()).collect()
}

#[test]
fn module_names_are_sorted() {
    assert_eq!(module_names(strings(&["feed", "actor", "Zeta", "embed"])), strings(&["Zeta", "actor", "embed", "feed"]));
    assert_eq!(module_names(vec![]), Vec::<String>::new());
}

#[test]
fn main_definition_comes_first() {
    assert_eq!(def_order(strings(&["view", "main", "aspectRatio", "image"])), strings(&["main", "aspectRatio", "image", "view"]));
    assert_eq!(def_order(strings(&["b", "a"])), strings(&["a", "b"]));
    assert_eq!(def_order(strings(&["main"])), strings(&["main"]));
}

#[test]
fn schema_content_puts_main_first_then_sorted_defs() {
    let defs = vec![
        ("view".to_string(), "[view]".to_string()),
        ("main".to_string(), "[main]".to_string()),
        ("image".to_string(), "[image]".to_string()),
        ("aspectRatio".to_string(), "[aspectRatio]".to_string()),
    ];
    assert_eq!(schema_content("//! doc\n", defs, "[unions]"), "//! doc\n[main][aspectRatio][image][view][unions]");
    assert_eq!(schema_content("d", vec![], "u"), "du");
}
