use peopledatalabs::client::{
    APP_USER_AGENT, DEFAULT_API_URL, DEFAULT_API_VERSION, DEFAULT_SANDBOX_URL, DEFAULT_TIMEOUT,
};
use peopledatalabs::{
    Method, Outcome, PDLCLientOptions, PDLClient, PDLError, Request, WireValue, PDL,
};

#[test]
fn a_new_client_has_the_default_settings() {
    let client = PDLClient::new("SECRET").build();
    assert_eq!(client.api_key(), "SECRET");
    assert_eq!(client.base_url(), "https://api.peopledatalabs.com/");
    assert_eq!(client.api_version(), "v5");
    assert_eq!(client.timeout(), 10);
    assert_eq!(DEFAULT_API_URL, "https://api.peopledatalabs.com/");
    assert_eq!(DEFAULT_API_VERSION, "v5");
    assert_eq!(DEFAULT_TIMEOUT, 10);
}

#[test]
fn default_options_change_nothing() {
    let options = PDLCLientOptions::default();
    assert!(!options.sandbox);
    assert_eq!(options.timeout, 10);
    let client = PDLClient::new("SECRET").options(options).build();
    assert_eq!(client.base_url(), DEFAULT_API_URL);
    assert_eq!(client.timeout(), DEFAULT_TIMEOUT);
}

#[test]
fn the_sandbox_swaps_the_endpoint_only() {
    let mut options = PDLCLientOptions::default();
    options.sandbox = true;
    let client = PDLClient::new("SECRET").options(options).build();
    assert_eq!(client.base_url(), "https://sandbox.api.peopledatalabs.com/");
    assert_eq!(client.base_url(), DEFAULT_SANDBOX_URL);
    assert_eq!(client.api_version(), "v5");
    assert_eq!(client.api_key(), "SECRET");
    assert_eq!(client.timeout(), 10);
    assert_eq!(
        client.endpoint_url("/person/enrich"),
        "https://sandbox.api.peopledatalabs.com/v5/person/enrich"
    );
}

#[test]
fn options_override_the_timeout() {
    let client = PDLClient::new("SECRET")
        .options(PDLCLientOptions { sandbox: false, timeout: 45 })
        .build();
    assert_eq!(client.timeout(), 45);
    assert_eq!(client.base_url(), DEFAULT_API_URL);
}

#[test]
fn the_version_can_be_chosen() {
    let client = PDLClient::new("SECRET").version("v6").build();
    assert_eq!(client.api_version(), "v6");
    assert_eq!(client.endpoint_url("/ip/enrich"), "https://api.peopledatalabs.com/v6/ip/enrich");
}

#[test]
fn a_clone_has_the_same_settings() {
    let mut options = PDLCLientOptions::default();
    options.sandbox = true;
    options.timeout = 3;
    let client = PDLClient::new("SECRET").version("v4").options(options).build();
    let copy = client.clone();
    assert_eq!(copy.api_key(), client.api_key());
    assert_eq!(copy.base_url(), client.base_url());
    assert_eq!(copy.api_version(), client.api_version());
    assert_eq!(copy.timeout(), client.timeout());
}

#[test]
fn the_credential_travels_in_a_header() {
    let client = PDLClient::new("SECRET").build();
    assert_eq!(
        client.headers(),
        vec![
            ("X-Api-Key".to_string(), "SECRET".to_string()),
            ("User-Agent".to_string(), "PDL-RUST-SDK".to_string()),
        ]
    );
    assert_eq!(APP_USER_AGENT, "PDL-RUST-SDK");
    let request = client
        .get("/skill/enrich", &vec![("skill".to_string(), WireValue::Text("rust".to_string()))])
        .unwrap();
    assert!(!request.url.contains("SECRET"));
}

#[test]
fn a_get_request_carries_the_query_in_its_address() {
    let client = PDLClient::new("SECRET").build();
    assert_eq!(
        client.get_with_query("/company/clean", "name=google"),
        Request {
            method: Method::Get,
            url: "https://api.peopledatalabs.com/v5/company/clean?name=google".to_string(),
            body: None,
        }
    );
    let fields = vec![
        ("pretty".to_string(), WireValue::Bool(true)),
        ("name".to_string(), WireValue::Text("people data labs".to_string())),
    ];
    assert_eq!(
        client.get("/company/clean", &fields),
        Ok(Request {
            method: Method::Get,
            url: "https://api.peopledatalabs.com/v5/company/clean?pretty=true&name=people+data+labs"
                .to_string(),
            body: None,
        })
    );
}

#[test]
fn a_post_request_carries_its_body() {
    let client = PDLClient::new("SECRET").build();
    assert_eq!(
        client.post("/person/bulk", "{\"requests\":[]}".to_string()),
        Request {
            method: Method::Post,
            url: "https://api.peopledatalabs.com/v5/person/bulk".to_string(),
            body: Some("{\"requests\":[]}".to_string()),
        }
    );
}

#[test]
fn a_failed_check_sends_nothing() {
    let client = PDLClient::new("SECRET").build();
    let fields = vec![("ip".to_string(), WireValue::Text("10.0.0.1".to_string()))];
    assert_eq!(
        client.send_get("/ip/enrich", Err(PDLError::ValidationError), &fields),
        Err(PDLError::ValidationError)
    );
    assert_eq!(
        client.send_post(
            "/person/bulk",
            Err(PDLError::ValidationError),
            Ok("{}".to_string())
        ),
        Err(PDLError::ValidationError)
    );
    assert_eq!(
        client.send_post("/person/bulk", Ok(()), Err(PDLError::SerializationError)),
        Err(PDLError::SerializationError)
    );
    assert_eq!(
        client.send_post("/person/bulk", Ok(()), Ok("{}".to_string())),
        Ok(client.post("/person/bulk", "{}".to_string()))
    );
    assert_eq!(
        client.send_get("/ip/enrich", Ok(()), &fields),
        Ok(client.get_with_query("/ip/enrich", "ip=10.0.0.1"))
    );
}

#[test]
fn a_200_answer_hands_on_its_body() {
    let outcome = Outcome::Answered { status: 200, body: "{\"status\":200}".to_string() };
    assert_eq!(PDLClient::receive(outcome), Ok("{\"status\":200}".to_string()));
}

#[test]
fn another_status_is_an_http_error_that_carries_it() {
    for status in [201, 204, 301, 400, 401, 402, 404, 429, 500, 503] {
        let outcome = Outcome::Answered { status, body: "{\"status\":200}".to_string() };
        assert_eq!(PDLClient::receive(outcome), Err(PDLError::HTTPError(status)));
    }
    let throttled = Outcome::Answered { status: 429, body: String::new() };
    assert_eq!(PDLClient::receive(throttled), Err(PDLError::HTTPError(429)));
    assert_ne!(PDLError::HTTPError(404), PDLError::HTTPError(500));
}

#[test]
fn a_body_of_another_shape_is_a_deserialization_error() {
    let body = PDLClient::receive(Outcome::Answered { status: 200, body: "[1, 2".to_string() });
    let parsed = serde_json::from_str::<serde_json::Value>(&body.unwrap()).ok();
    assert_eq!(PDLClient::decoded(parsed), Err(PDLError::DeserializationError));
    assert_eq!(PDLClient::decoded(Some(7)), Ok(7));
    assert_eq!(PDLClient::decoded::<String>(None), Err(PDLError::DeserializationError));
}

#[test]
fn the_status_decides_whether_a_body_is_read() {
    assert_eq!(PDLClient::check_status(200), Ok(()));
    assert_eq!(PDLClient::check_status(404), Err(PDLError::HTTPError(404)));
    assert_eq!(PDLClient::check_status(429), Err(PDLError::HTTPError(429)));
    assert_eq!(PDLClient::check_status(199), Err(PDLError::HTTPError(199)));
}

#[test]
fn a_failed_exchange_is_a_network_error() {
    let outcome = Outcome::Failed("operation timed out".to_string());
    assert_eq!(
        PDLClient::receive(outcome),
        Err(PDLError::NetworkError("operation timed out".to_string()))
    );
}

#[test]
fn errors_describe_themselves() {
    assert_eq!(PDLError::ValidationError.message(), "Unable to validate.");
    assert_eq!(PDLError::SerializationError.message(), "Unable to serialize.");
    assert_eq!(PDLError::DeserializationError.message(), "Unable to deserialize.");
    assert_eq!(PDLError::HTTPError(429).message(), "Invalid HTTP status code: 429");
    assert_eq!(PDLError::HTTPError(0).message(), "Invalid HTTP status code: 0");
    assert_eq!(
        PDLError::NetworkError("connection reset".to_string()).message(),
        "connection reset"
    );
}

#[test]
fn every_dispatcher_shares_the_client() {
    let pdl = PDL::new("SECRET");
    for client in [
        &pdl.autocomplete.client,
        &pdl.company.client,
        &pdl.ip.client,
        &pdl.job_title.client,
        &pdl.location.client,
        &pdl.person.client,
        &pdl.school.client,
        &pdl.skill.client,
    ] {
        assert_eq!(client.api_key(), "SECRET");
        assert_eq!(client.base_url(), DEFAULT_API_URL);
        assert_eq!(client.api_version(), DEFAULT_API_VERSION);
        assert_eq!(client.timeout(), DEFAULT_TIMEOUT);
    }
    let mut options = PDLCLientOptions::default();
    options.sandbox = true;
    let sandbox = PDL::with_client(PDLClient::new("SECRET").options(options).build());
    assert_eq!(sandbox.person.client.base_url(), DEFAULT_SANDBOX_URL);
    assert_eq!(sandbox.skill.client.base_url(), DEFAULT_SANDBOX_URL);
}
