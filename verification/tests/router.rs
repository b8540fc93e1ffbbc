use mod_images::router::{publicly_readable, Endpoint, Method, Route};
use mod_images::{check_truthy, router};

#[test]
fn refusals_are_not_truthy() {
    for refusal in ["f", "false", "0", "n", "no", "F", "FALSE", "False", "N", "No", "nO"] {
        assert!(!check_truthy(refusal));
    }
}

#[test]
fn everything_else_is_truthy() {
    for value in ["t", "true", "1", "y", "yes", "", " ", "off", "falsey", " false", "00", "nope"] {
        assert!(check_truthy(value));
    }
}

#[test]
fn uploads_are_private_unless_set_public() {
    assert!(!publicly_readable(None));
    assert!(!publicly_readable(Some("false")));
    assert!(!publicly_readable(Some("NO")));
    assert!(publicly_readable(Some("true")));
    assert!(publicly_readable(Some("")));
}

#[test]
fn private_table_guards_the_pages() {
    let table = router(false);
    assert_eq!(
        table,
        vec![
            Route { path: "/", method: Method::Get, endpoint: Endpoint::Index, session: true },
            Route { path: "/upload", method: Method::Post, endpoint: Endpoint::Upload, session: true },
            Route { path: "/:id", method: Method::Get, endpoint: Endpoint::View, session: true },
            Route {
                path: "/oauth2/callback",
                method: Method::Get,
                endpoint: Endpoint::Authenticate,
                session: false
            },
            Route {
                path: "/interactions",
                method: Method::Post,
                endpoint: Endpoint::Interaction,
                session: false
            },
            Route { path: "/assets", method: Method::Any, endpoint: Endpoint::Assets, session: false },
        ]
    );
}

#[test]
fn public_table_opens_the_upload_pages_only() {
    let private = router(false);
    let public = router(true);
    assert_eq!(private.len(), public.len());
    for (a, b) in private.iter().zip(public.iter()) {
        assert_eq!(a.path, b.path);
        assert_eq!(a.method, b.method);
        assert_eq!(a.endpoint, b.endpoint);
        if a.endpoint == Endpoint::View {
            assert!(a.session);
            assert!(!b.session);
        } else {
            assert_eq!(a.session, b.session);
        }
    }
}
