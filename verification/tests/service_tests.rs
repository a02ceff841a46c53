use rust_for_web::sanitize::Params;
use rust_for_web::service::{
    authorize_request, create_user_status, delete_rows_status, delete_user_status, demo_user,
    get_user_reply, proxy_reply, seed_article_drafts, token_gate, update_email_status,
    upstream_status, CorsInitializer, DbError, TokenRejection, POC_AUTH_HEADER,
};

#[test]
fn user_handler_statuses() {
    assert_eq!(create_user_status(true), 201);
    assert_eq!(create_user_status(false), 500);
    assert_eq!(update_email_status(true), 200);
    assert_eq!(update_email_status(false), 500);
    assert_eq!(delete_user_status(true), 204);
    assert_eq!(delete_user_status(false), 500);
    assert_eq!(delete_rows_status(0), 404);
    assert_eq!(delete_rows_status(3), 204);
    assert_eq!(get_user_reply::<&str>(Ok("ada")), Ok("ada"));
    assert_eq!(get_user_reply::<&str>(Err(DbError::RowNotFound)), Err(404));
    assert_eq!(get_user_reply::<&str>(Err(DbError::Other)), Err(500));
}

#[test]
fn proxy_passes_valid_statuses() {
    assert_eq!(upstream_status(200), 200);
    assert_eq!(upstream_status(100), 100);
    assert_eq!(upstream_status(999), 999);
    assert_eq!(upstream_status(99), 500);
    assert_eq!(upstream_status(1000), 500);
    assert_eq!(proxy_reply(Some((418, "tea".to_string()))), (418, "tea".to_string()));
    assert_eq!(proxy_reply(Some((7, String::new()))), (500, String::new()));
    assert_eq!(proxy_reply(None), (502, "Django unreachable".to_string()));
}

#[test]
fn api_token_check() {
    assert!(authorize_request(Some("Bearer secret-poc-token")));
    assert!(authorize_request(Some(POC_AUTH_HEADER)));
    assert!(!authorize_request(Some("Bearer secret-poc-token ")));
    assert!(!authorize_request(Some("secret-poc-token")));
    assert!(!authorize_request(None));
}

#[test]
fn demo_users() {
    let alice = demo_user(1).unwrap();
    assert_eq!((alice.id, alice.name.as_str()), (1, "Alice"));
    let bob = demo_user(2).unwrap();
    assert_eq!((bob.id, bob.name.as_str()), (2, "Bob"));
    assert!(demo_user(3).is_none());
    assert!(demo_user(0).is_none());
}

#[test]
fn article_token_gate() {
    assert_eq!(token_gate(false, true), Err(TokenRejection::MissingToken));
    assert_eq!(token_gate(true, false), Err(TokenRejection::InvalidToken));
    assert_eq!(token_gate(true, true), Ok(()));
    assert_eq!(TokenRejection::MissingToken.message(), "missing token");
    assert_eq!(TokenRejection::InvalidToken.message(), "invalid token");
}

#[test]
fn cors_initializer_name() {
    assert_eq!(CorsInitializer.name(), "cors");
}

#[test]
fn seed_drafts() {
    let d = seed_article_drafts();
    assert_eq!(d.len(), 2);
    assert_eq!(d[0].title, "Premier article");
    assert_eq!(d[0].content, "Contenu du premier article");
    assert_eq!(d[1].title, "Second article");
    assert_eq!(d[1].content, "Contenu du second article");
}

#[test]
fn sanitizing_strips_tags_and_keeps_absent_fields() {
    let p = Params { title: Some("<b>Hello</b> <script>alert(1)</script>world".to_string()), content: None };
    let s = p.sanitized();
    assert_eq!(s.title.as_deref(), Some("Hello world"));
    assert_eq!(s.content, None);
    let q = Params { title: None, content: Some("plain text".to_string()) };
    assert_eq!(q.sanitized().content.as_deref(), Some("plain text"));
    let r = Params { title: Some("a < b".to_string()), content: Some(String::new()) };
    let rs = r.sanitized();
    assert_eq!(rs.title.as_deref(), Some("a &lt; b"));
    assert_eq!(rs.content.as_deref(), Some(""));
}

#[test]
fn sanitized_text_keeps_no_angle_brackets() {
    let inputs = [
        "<xmp><b>raw</b></xmp>",
        "<plaintext><i>everything after</i>",
        "<noscript><p>x</p></noscript>",
        "<svg><style><b>y</b></style></svg>",
        "<math><mi><![CDATA[<z>]]></mi></math>",
        "<!-- <c> --> text > more < less",
        "&lt;script&gt;alert(1)&lt;/script&gt;",
        "<?php echo 1; ?>",
        "<textarea></textarea><b>in</b></textarea>",
        "<title><b>t</b></title><iframe><x></iframe>",
    ];
    for input in inputs.iter() {
        let p = Params { title: Some(input.to_string()), content: None };
        let out = p.sanitized().title.unwrap();
        assert!(!out.contains('<') && !out.contains('>'), "{:?} -> {:?}", input, out);
    }
}
