use api_codegen::client::request_url;
use api_codegen::model::{Attribute, FnParam, HttpMethod, ImplFn, ImplItem, TypeRef};
use api_codegen::server::{generate_router, APIResult, RouteEntry};
use api_codegen::service::api;
use axum::body::Body;
use axum::extract::Path;
use axum::http::{Request, StatusCode};
use http_body_util::BodyExt;
use tower::ServiceExt;

fn handler(method: &str, path: &str, name: &str, params: Vec<FnParam>) -> ImplItem {
    ImplItem::Fn(ImplFn {
        name: name.to_string(),
        visibility: "pub".to_string(),
        attrs: vec![Attribute {
            name: "api_handler".to_string(),
            args: vec![
                ("method".to_string(), method.to_string()),
                ("path".to_string(), path.to_string()),
            ],
        }],
        params,
        output: Some(TypeRef { path: "MyAppResult".to_string(), args: vec!["User".to_string()] }),
    })
}

fn path_param(name: &str) -> FnParam {
    FnParam {
        name: name.to_string(),
        ty: "u32".to_string(),
        attrs: vec![Attribute { name: "path".to_string(), args: vec![] }],
    }
}

async fn echo_user(Path(id): Path<u32>) -> (StatusCode, String) {
    let r = if id == 0 {
        APIResult::NotFound(format!("User {} not found", id))
    } else {
        APIResult::Success(format!("{{\"id\":{}}}", id))
    };
    let resp = r.into_response();
    (StatusCode::from_u16(resp.status).unwrap(), resp.body)
}

fn router_from(routes: &[RouteEntry]) -> axum::Router {
    let mut router = axum::Router::new();
    for route in routes {
        let method_router = match route.http_method {
            HttpMethod::Get => axum::routing::get(echo_user),
            HttpMethod::Post => axum::routing::post(echo_user),
            HttpMethod::Put => axum::routing::put(echo_user),
            HttpMethod::Delete => axum::routing::delete(echo_user),
            HttpMethod::Patch => axum::routing::patch(echo_user),
        };
        router = router.route(&route.path, method_router);
    }
    router
}

fn user_router() -> axum::Router {
    let items = vec![
        handler("GET", "/users/{id}", "get_user", vec![path_param("id")]),
        handler("DELETE", "/users/{id}", "delete_user", vec![path_param("id")]),
    ];
    let expansion = api("MyApp".to_string(), items).unwrap();
    router_from(&generate_router(&expansion.service))
}

fn runtime() -> tokio::runtime::Runtime {
    tokio::runtime::Builder::new_multi_thread().enable_all().build().unwrap()
}

async fn send(router: axum::Router, method: &str, uri: &str) -> (StatusCode, String) {
    let request = Request::builder().method(method).uri(uri).body(Body::empty()).unwrap();
    let response = router.oneshot(request).await.unwrap();
    let status = response.status();
    let bytes = response.into_body().collect().await.unwrap().to_bytes();
    (status, String::from_utf8(bytes.to_vec()).unwrap())
}

#[test]
fn registered_path_with_unregistered_method_is_405() {
    let (status, _) = runtime().block_on(send(user_router(), "POST", "/users/42"));
    assert_eq!(status, StatusCode::METHOD_NOT_ALLOWED);
}

#[test]
fn unknown_path_is_404() {
    let (status, _) = runtime().block_on(send(user_router(), "GET", "/unknown/path"));
    assert_eq!(status, StatusCode::NOT_FOUND);
}

#[test]
fn registered_route_reaches_handler() {
    let (status, body) = runtime().block_on(send(user_router(), "GET", "/users/42"));
    assert_eq!(status, StatusCode::OK);
    assert_eq!(body, "{\"id\":42}");
    let (status, body) = runtime().block_on(send(user_router(), "DELETE", "/users/0"));
    assert_eq!(status, StatusCode::NOT_FOUND);
    assert_eq!(body, "{\"error\":\"User 0 not found\"}");
}

#[test]
fn concurrent_calls_get_their_own_answers() {
    let rt = runtime();
    let router = user_router();
    let results = rt.block_on(async move {
        let mut tasks = Vec::new();
        for id in 1..=10u32 {
            let router = router.clone();
            tasks.push(tokio::spawn(async move {
                let url = request_url("", "/users/{id}", &vec![id.to_string()], &vec![]);
                let (status, body) = send(router, "GET", &url).await;
                (id, status, body)
            }));
        }
        let mut out = Vec::new();
        for t in tasks {
            out.push(t.await.expect("task should not panic"));
        }
        out
    });
    assert_eq!(results.len(), 10);
    for (id, status, body) in results {
        assert_eq!(status, StatusCode::OK);
        assert_eq!(body, format!("{{\"id\":{}}}", id));
    }
}
