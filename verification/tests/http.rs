use sortasecret::http::{
    error_page, failure_response, html, js, response, route, static_file, Failure, Response, Route,
};

#[test]
fn response_holds_what_it_is_given() {
    assert_eq!(
        response(201, vec![1, 2, 3], "application/x-test"),
        Response {
            status: 201,
            content_type: "application/x-test".to_string(),
            body: vec![1, 2, 3]
        }
    );
}

#[test]
fn html_reply_is_utf8_html() {
    let reply = html(200, "<p>gr\u{fc}\u{df}e</p>".to_string());
    assert_eq!(reply.status, 200);
    assert_eq!(reply.content_type, "text/html; charset=utf-8");
    assert_eq!(reply.body, "<p>gr\u{fc}\u{df}e</p>".as_bytes());
}

#[test]
fn js_reply_is_utf8_javascript() {
    let reply = js(200, "let x = 1;".to_string());
    assert_eq!(reply.status, 200);
    assert_eq!(reply.content_type, "text/javascript; charset=utf-8");
    assert_eq!(reply.body, b"let x = 1;");
}

#[test]
fn static_file_guesses_the_media_type_from_the_name() {
    assert_eq!(static_file(200, "style.css", vec![1]).content_type, "text/css");
    assert_eq!(static_file(200, "favicon.ico", vec![]).content_type, "image/x-icon");
    assert_eq!(static_file(200, "logo.PNG", vec![]).content_type, "image/png");
    assert_eq!(static_file(200, "unknown", vec![]).content_type, "application/octet-stream");
    assert_eq!(static_file(200, "a.no-such-ext", vec![]).content_type, "application/octet-stream");
    let reply = static_file(200, "style.css", vec![7, 8, 9]);
    assert_eq!(reply.status, 200);
    assert_eq!(reply.body, vec![7, 8, 9]);
}

#[test]
fn routes_of_get_requests() {
    assert_eq!(route(true, "/"), Route::Homepage);
    assert_eq!(route(true, "/v1/script.js"), Route::Script);
    assert_eq!(route(true, "/v1/pubkey"), Route::Pubkey);
    assert_eq!(route(true, "/v1/encrypt"), Route::Encrypt);
    assert_eq!(route(true, "/v1/show"), Route::Show);
    assert_eq!(route(true, "/favicon.ico"), Route::Static("favicon.ico".to_string()));
    assert_eq!(route(true, "/static/app.js"), Route::Static("app.js".to_string()));
    assert_eq!(route(true, "/static/css/site.css"), Route::Static("css/site.css".to_string()));
    assert_eq!(route(true, "/static/"), Route::Static(String::new()));
}

#[test]
fn routes_of_other_requests() {
    assert_eq!(route(false, "/v1/decrypt"), Route::Decrypt);
    assert_eq!(route(false, "/"), Route::NotFound);
    assert_eq!(route(false, "/v1/encrypt"), Route::NotFound);
    assert_eq!(route(false, "/v1/show"), Route::NotFound);
    assert_eq!(route(false, "/static/app.js"), Route::NotFound);
    assert_eq!(route(false, "/favicon.ico"), Route::NotFound);
}

#[test]
fn what_is_not_served_is_not_found() {
    assert_eq!(route(true, "/v1/decrypt"), Route::NotFound);
    assert_eq!(route(true, ""), Route::NotFound);
    assert_eq!(route(true, "/static"), Route::NotFound);
    assert_eq!(route(true, "/v1/"), Route::NotFound);
    assert_eq!(route(true, "/V1/encrypt"), Route::NotFound);
    assert_eq!(route(true, "/v1/encrypt/"), Route::NotFound);
    assert_eq!(route(true, "static/app.js"), Route::NotFound);
    assert_eq!(route(true, "/statics/app.js"), Route::NotFound);
}

#[test]
fn error_page_names_the_failure_twice() {
    assert_eq!(
        error_page("Not found: /x"),
        "<!DOCTYPE html><html><head><title>Not found: /x</title></head>\
         <body><h1>Error occurred</h1><pre>Not found: /x</pre></body></html>"
    );
}

#[test]
fn failures_have_their_status() {
    assert_eq!(failure_response(Failure::NotFound, "m").status, 404);
    assert_eq!(failure_response(Failure::BadUrl, "m").status, 400);
    assert_eq!(failure_response(Failure::Internal, "m").status, 500);
    let reply = failure_response(Failure::NotFound, "Not found: /x");
    assert_eq!(reply.content_type, "text/html; charset=utf-8");
    assert_eq!(reply.body, error_page("Not found: /x").into_bytes());
}
