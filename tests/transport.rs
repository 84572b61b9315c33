use tmlr::data::{LoginResponse, SpaceListResponse, SpaceResponse};
use tmlr::error::Error;
use tmlr::transport::{
    Header, Method, Payload, Reply, RequestBody, Sent, Shape, TimeularHttpClient,
};

fn header(name: &str, value: &str) -> Header {
    Header {
        name: name.to_owned(),
        value: value.to_owned(),
    }
}

fn sent() -> Sent {
    Sent {
        url: "https://api.timeular.com/api/v3/space".to_owned(),
        context: "fetching spaces".to_owned(),
    }
}

#[test]
fn fixed_configuration() {
    let c = TimeularHttpClient::new();
    assert_eq!(c.url, "https://api.timeular.com/api");
    assert_eq!(c.api_version, "v3");
    assert_eq!(c.timeout_secs, 60);
    assert_eq!(c.user_agent, "Tmlr Client");
    assert!(c.gzip);
    assert!(c.https_only);
    assert_eq!(c.uri("/tags"), "https://api.timeular.com/api/v3/tags");
}

#[test]
fn headers_carry_the_token_only_when_given() {
    assert_eq!(
        TimeularHttpClient::construct_headers(None),
        vec![header("content-type", "application/json")]
    );
    assert_eq!(
        TimeularHttpClient::construct_headers(Some("t0k")),
        vec![
            header("content-type", "application/json"),
            header("authorization", "Bearer t0k")
        ]
    );
}

#[test]
fn requests_of_each_operation() {
    let c = TimeularHttpClient::new();
    let login = c.login("k".to_owned(), "s".to_owned());
    assert_eq!(login.method, Method::Post);
    assert_eq!(login.url, "https://api.timeular.com/api/v3/developer/sign-in");
    assert_eq!(login.expect, Shape::Token);
    let logout = c.logout("t");
    assert_eq!(logout.url, "https://api.timeular.com/api/v3/developer/logout");
    assert_eq!(logout.body, RequestBody::Empty);
    assert_eq!(logout.expect, Shape::Nothing);
    let list = c.list_spaces("t");
    assert_eq!(list.method, Method::Get);
    assert_eq!(list.url, "https://api.timeular.com/api/v3/space");
    assert_eq!(list.context, "fetching spaces");
    let tag = c.create_tag("t", "L".to_owned(), None, "sp".to_owned());
    assert_eq!(tag.context, "creating a tag");
    let act = c.create_activity("t", "N".to_owned(), "#000000".to_owned(), "sp".to_owned());
    assert_eq!(act.context, "creating an activity");
    assert_eq!(act.sent(), Sent { url: act.url.clone(), context: act.context.clone() });
}

#[test]
fn receive_classifies_replies() {
    let list = SpaceListResponse { data: vec![] };
    assert_eq!(
        TimeularHttpClient::receive(&sent(), Shape::Spaces, Reply::Unreachable("dns".to_owned())),
        Err(Error::TransportFailure {
            url: sent().url,
            cause: "dns".to_owned()
        })
    );
    assert_eq!(
        TimeularHttpClient::receive(
            &sent(),
            Shape::Spaces,
            Reply::Answered {
                status: 199,
                text: "t".to_owned(),
                body: Some(Payload::Spaces(list.clone()))
            }
        ),
        Err(Error::ApiFailure {
            url: sent().url,
            status: 199,
            body: "t".to_owned()
        })
    );
    for status in [200u16, 204, 299] {
        assert_eq!(
            TimeularHttpClient::receive(
                &sent(),
                Shape::Spaces,
                Reply::Answered {
                    status,
                    text: String::new(),
                    body: Some(Payload::Spaces(list.clone()))
                }
            ),
            Ok(Payload::Spaces(list.clone()))
        );
    }
    assert_eq!(
        TimeularHttpClient::receive(
            &sent(),
            Shape::Spaces,
            Reply::Answered {
                status: 200,
                text: String::new(),
                body: Some(Payload::Token(LoginResponse {
                    token: "x".to_owned()
                }))
            }
        ),
        Err(Error::DecodeFailure("fetching spaces".to_owned()))
    );
    assert_eq!(
        TimeularHttpClient::receive(
            &sent(),
            Shape::Nothing,
            Reply::Answered {
                status: 204,
                text: String::new(),
                body: None
            }
        ),
        Ok(Payload::Nothing)
    );
}

fn space(id: &str, default: bool) -> SpaceResponse {
    SpaceResponse {
        id: id.to_owned(),
        name: id.to_owned(),
        default,
        members: vec![],
        retired_members: vec![],
    }
}

#[test]
fn default_space_lookup() {
    let list = SpaceListResponse {
        data: vec![space("a", false), space("b", true), space("c", true)],
    };
    assert_eq!(list.default_space().map(|s| s.id.as_str()), Some("b"));
    assert_eq!(list.default_space_id(), Err(Error::NoDefaultSpace));
    let one = SpaceListResponse {
        data: vec![space("a", false), space("b", true)],
    };
    assert_eq!(one.default_space_id(), Ok("b".to_owned()));
    let none = SpaceListResponse {
        data: vec![space("a", false)],
    };
    assert_eq!(none.default_space(), None);
    assert_eq!(none.default_space_id(), Err(Error::NoDefaultSpace));
    let empty = SpaceListResponse { data: vec![] };
    assert_eq!(empty.default_space_id(), Err(Error::NoDefaultSpace));
}
