use herder::api::{APIMethodRequest, HttpMethod};

#[test]
fn default_api_method() {
    let default = APIMethodRequest {
        body: None,
        headers: Vec::new(),
        method: HttpMethod::Get,
        path: String::from("/"),
        query: None,
        uri: String::from("/"),
    };
    assert_eq!(default, APIMethodRequest::default())
}
