use peopledatalabs::{
    AdditionalParams, Autocomplete, AutocompleteBaseParams, AutocompleteParams, BaseParams,
    BulkEnrichCompanyParams, BulkEnrichPersonParams, BulkEnrichSingleCompanyParams,
    BulkEnrichSinglePersonParams, BulkRetrievePersonParams, BulkRetrieveSinglePersonParams,
    CleanCompanyParams, CleanLocationParams, CleanSchoolParams, Company, CompanyParams,
    ConfidenceLevel, EnrichCompanyParams, EnrichPersonParams, IPBaseParams, IPParams,
    IdentifyPersonParams, IdentityRule, JobTitle, JobTitleBaseParams, JobTitleParams, Location,
    LocationParams, Method, Outcome, PDLCLientOptions, PDLClient, PDLError, Person,
    PersonParams, Request, RetrievePersonParams, School, SchoolParams, SearchBaseParams,
    SearchParams, Skill, SkillBaseParams, SkillParams, IP,
};

const BASE: &str = "https://api.peopledatalabs.com/v5";

fn client() -> PDLClient {
    PDLClient::new("SECRET").build()
}

fn pretty() -> Option<BaseParams> {
    let mut base_params = BaseParams::default();
    base_params.pretty = Some(true);
    Some(base_params)
}

fn get(path_and_query: &str) -> Result<Request, PDLError> {
    Ok(Request { method: Method::Get, url: format!("{}{}", BASE, path_and_query), body: None })
}

fn post(path: &str, body: &str) -> Result<Request, PDLError> {
    Ok(Request {
        method: Method::Post,
        url: format!("{}{}", BASE, path),
        body: Some(body.to_string()),
    })
}

#[test]
fn location_clean_end_to_end() {
    let location = Location { client: client() };
    let params = CleanLocationParams {
        base_params: None,
        location_params: LocationParams { location: Some("New York, NY".to_string()) },
        additional_params: None,
    };
    let request = location.clean(params);
    assert_eq!(request, get("/location/clean?location=New+York%2C+NY"));

    let answer = Outcome::Answered {
        status: 200,
        body: "{\"status\":200,\"name\":\"new york, new york, united states\",\"country\":\"united states\"}"
            .to_string(),
    };
    let body = PDLClient::receive(answer).unwrap();
    let decoded: serde_json::Value = serde_json::from_str(&body).unwrap();
    assert_eq!(decoded["name"].as_str(), Some("new york, new york, united states"));
    assert_eq!(decoded["status"].as_i64(), Some(200));
}

#[test]
fn location_clean_with_options() {
    let location = Location { client: client() };
    let params = CleanLocationParams {
        base_params: pretty(),
        location_params: LocationParams { location: Some("portland".to_string()) },
        additional_params: None,
    };
    assert_eq!(location.clean(params), get("/location/clean?pretty=true&location=portland"));
}

#[test]
fn an_ip_lookup_without_an_address_sends_nothing() {
    let ip = IP { client: client() };
    let params = IPParams { base_params: pretty(), ip_base_params: IPBaseParams { ip: None, ..IPBaseParams::default() } };
    assert_eq!(ip.get(params), Err(PDLError::ValidationError));
}

#[test]
fn ip_lookup() {
    let ip = IP { client: client() };
    let mut ip_base_params = IPBaseParams::default();
    ip_base_params.ip = Some("72.212.42.228".to_string());
    ip_base_params.return_ip_location = Some(true);
    ip_base_params.min_confidence = Some(ConfidenceLevel::VeryHigh);
    let params = IPParams { base_params: pretty(), ip_base_params };
    assert_eq!(
        ip.get(params),
        get("/ip/enrich?pretty=true&ip=72.212.42.228&return_ip_location=true&min_confidence=veryhigh")
    );
}

#[test]
fn confidence_levels_have_their_words() {
    assert_eq!(ConfidenceLevel::VeryHigh.as_str(), "veryhigh");
    assert_eq!(ConfidenceLevel::High.as_str(), "high");
    assert_eq!(ConfidenceLevel::Moderate.as_str(), "moderate");
    assert_eq!(ConfidenceLevel::Low.as_str(), "low");
    assert_eq!(ConfidenceLevel::VeryLow.as_str(), "verylow");
}

#[test]
fn autocomplete() {
    let autocomplete = Autocomplete { client: client() };
    let mut base_params = BaseParams::default();
    base_params.pretty = Some(true);
    base_params.size = Some(10);
    let params = AutocompleteParams {
        base_params: Some(base_params),
        autocomplete_base_params: AutocompleteBaseParams {
            field: "school".to_string(),
            text: Some("stanf".to_string()),
            titlecase: Some(false),
            beta: None,
        },
    };
    assert_eq!(
        autocomplete.autocomplete(params),
        get("/autocomplete?pretty=true&size=10&field=school&text=stanf&titlecase=false")
    );
    let unnamed = AutocompleteParams {
        base_params: None,
        autocomplete_base_params: AutocompleteBaseParams {
            field: String::new(),
            text: Some("stanf".to_string()),
            titlecase: None,
            beta: None,
        },
    };
    assert_eq!(autocomplete.autocomplete(unnamed), Err(PDLError::ValidationError));
}

#[test]
fn job_title_lookup() {
    let job_title = JobTitle { client: client() };
    let params = JobTitleParams {
        base_params: pretty(),
        job_title_base_params: JobTitleBaseParams { job_title: Some("data scientist".to_string()) },
    };
    assert_eq!(job_title.get(params), get("/job_title/enrich?pretty=true&job_title=data+scientist"));
    let empty = JobTitleParams {
        base_params: pretty(),
        job_title_base_params: JobTitleBaseParams { job_title: None },
    };
    assert_eq!(job_title.get(empty), Err(PDLError::ValidationError));
}

#[test]
fn skill_lookup() {
    let skill = Skill { client: client() };
    let params = SkillParams {
        base_params: pretty(),
        skill_base_params: SkillBaseParams { skill: Some("rust".to_string()), titlecase: Some(false) },
    };
    assert_eq!(skill.get(params), get("/skill/enrich?pretty=true&skill=rust&titlecase=false"));
    let empty = SkillParams {
        base_params: None,
        skill_base_params: SkillBaseParams { skill: None, titlecase: None },
    };
    assert_eq!(skill.get(empty), Err(PDLError::ValidationError));
}

#[test]
fn school_clean() {
    let school = School { client: client() };
    let mut school_params = SchoolParams::default();
    school_params.profile = Some("linkedin.com/school/ucla".to_string());
    let params = CleanSchoolParams { base_params: pretty(), school_params, additional_params: None };
    assert_eq!(
        school.clean(params),
        get("/school/clean?pretty=true&profile=linkedin.com%2Fschool%2Fucla")
    );
    let empty = CleanSchoolParams {
        base_params: pretty(),
        school_params: SchoolParams::default(),
        additional_params: None,
    };
    assert_eq!(school.clean(empty), Err(PDLError::ValidationError));
}

#[test]
fn company_enrich() {
    let company = Company { client: client() };
    let mut company_params = CompanyParams::default();
    company_params.name = Some("google".to_string());
    let params = EnrichCompanyParams { base_params: pretty(), company_params, additional_params: None };
    assert_eq!(company.enrich(params), get("/company/enrich?pretty=true&name=google"));
    let empty = EnrichCompanyParams {
        base_params: pretty(),
        company_params: CompanyParams::default(),
        additional_params: None,
    };
    assert_eq!(company.enrich(empty), Err(PDLError::ValidationError));
}

#[test]
fn company_clean() {
    let company = Company { client: client() };
    let mut params = CleanCompanyParams::default();
    params.name = Some("google".to_string());
    assert_eq!(company.clean(params), get("/company/clean?name=google"));
    assert_eq!(company.clean(CleanCompanyParams::default()), Err(PDLError::ValidationError));
}

#[test]
fn company_search() {
    let company = Company { client: client() };
    let mut search_base_params = SearchBaseParams::default();
    search_base_params.sql = Some("SELECT * FROM company WHERE website='google.com';".to_string());
    let params = SearchParams { base_params: pretty(), search_base_params, additional_params: None };
    assert_eq!(
        company.search(params),
        get("/company/search?pretty=true&sql=SELECT+*+FROM+company+WHERE+website%3D%27google.com%27%3B")
    );
    assert_eq!(company.search(SearchParams::default()), Err(PDLError::ValidationError));
}

#[test]
fn company_bulk_enrich() {
    let company = Company { client: client() };
    let mut first = CompanyParams::default();
    first.profile = Some("https://www.linkedin.com/company/walmart".to_string());
    let mut second = CompanyParams::default();
    second.website = Some("google.com".to_string());
    let params = BulkEnrichCompanyParams {
        requests: vec![
            BulkEnrichSingleCompanyParams { params: first },
            BulkEnrichSingleCompanyParams { params: second.clone() },
        ],
    };
    assert_eq!(
        company.bulk_enrich(params),
        post(
            "/company/enrich/bulk",
            "{\"requests\":[{\"params\":{\"profile\":\"https://www.linkedin.com/company/walmart\"}},{\"params\":{\"website\":\"google.com\"}}]}"
        )
    );
    let spoiled = BulkEnrichCompanyParams {
        requests: vec![
            BulkEnrichSingleCompanyParams { params: second },
            BulkEnrichSingleCompanyParams { params: CompanyParams::default() },
        ],
    };
    assert_eq!(company.bulk_enrich(spoiled), Err(PDLError::ValidationError));
}

#[test]
fn person_enrich() {
    let person = Person { client: client() };
    let mut person_params = PersonParams::default();
    person_params.profile = Some(vec!["http://linkedin.com/in/seanthorne".to_string()]);
    let params = EnrichPersonParams { base_params: pretty(), person_params, additional_params: None };
    assert_eq!(
        person.enrich(params),
        get("/person/enrich?pretty=true&profile=http%3A%2F%2Flinkedin.com%2Fin%2Fseanthorne")
    );
    assert_eq!(person.enrich(EnrichPersonParams::default()), Err(PDLError::ValidationError));
}

#[test]
fn person_enrich_in_the_sandbox() {
    let mut options = PDLCLientOptions::default();
    options.sandbox = true;
    let person = Person { client: PDLClient::new("SECRET").options(options).build() };
    let mut person_params = PersonParams::default();
    person_params.email = Some(vec!["reneewillis74@aol.com".to_string()]);
    let mut additional_params = AdditionalParams::default();
    additional_params.min_likelihood = Some(6);
    let params = EnrichPersonParams {
        base_params: pretty(),
        person_params,
        additional_params: Some(additional_params),
    };
    assert_eq!(
        person.enrich(params),
        Ok(Request {
            method: Method::Get,
            url: "https://sandbox.api.peopledatalabs.com/v5/person/enrich?pretty=true&email=reneewillis74%40aol.com&min_likelihood=6"
                .to_string(),
            body: None,
        })
    );
}

#[test]
fn person_identify() {
    let person = Person { client: client() };
    let mut person_params = PersonParams::default();
    person_params.first_name = Some(vec!["sean".to_string()]);
    person_params.last_name = Some(vec!["thorne".to_string()]);
    person_params.company = Some(vec!["people data labs".to_string()]);
    let params = IdentifyPersonParams { base_params: pretty(), person_params, additional_params: None };
    assert_eq!(
        person.identify(params),
        get("/person/identify?pretty=true&first_name=sean&last_name=thorne&company=people+data+labs")
    );
}

#[test]
fn person_identify_by_company_alone_depends_on_the_rule() {
    let person = Person { client: client() };
    let mut person_params = PersonParams::default();
    person_params.company = Some(vec!["adams group".to_string()]);
    let params = IdentifyPersonParams { base_params: pretty(), person_params, additional_params: None };
    assert_eq!(person.identify(params.clone()), Err(PDLError::ValidationError));
    assert_eq!(
        person.identify_with(params.clone(), IdentityRule::Signal),
        Err(PDLError::ValidationError)
    );
    assert_eq!(
        person.identify_with(params, IdentityRule::DetailAbsent),
        get("/person/identify?pretty=true&company=adams+group")
    );
}

#[test]
fn person_enrich_by_name_and_location_depends_on_the_rule() {
    let person = Person { client: client() };
    let mut person_params = PersonParams::default();
    person_params.name = Some(vec!["josh finnie".to_string()]);
    person_params.location = Some(vec!["washington, dc".to_string()]);
    let params = EnrichPersonParams { base_params: None, person_params, additional_params: None };
    assert_eq!(person.enrich(params.clone()), Err(PDLError::ValidationError));
    assert_eq!(
        person.enrich_with(params, IdentityRule::DetailPresent),
        get("/person/enrich?name=josh+finnie&location=washington%2C+dc")
    );
}

#[test]
fn person_search() {
    let person = Person { client: client() };
    let mut base_params = BaseParams::default();
    base_params.size = Some(3);
    let mut search_base_params = SearchBaseParams::default();
    search_base_params.sql =
        Some("SELECT * FROM person WHERE location_country='united states';".to_string());
    let params = SearchParams {
        base_params: Some(base_params),
        search_base_params,
        additional_params: None,
    };
    assert_eq!(
        person.search(params),
        get("/person/search?size=3&sql=SELECT+*+FROM+person+WHERE+location_country%3D%27united+states%27%3B")
    );
    let mut both = SearchBaseParams::default();
    both.sql = Some("SELECT * FROM person;".to_string());
    both.query = Some("{}".to_string());
    let params = SearchParams { base_params: None, search_base_params: both, additional_params: None };
    assert_eq!(person.search(params), Err(PDLError::ValidationError));
}

#[test]
fn person_retrieve_puts_the_identifier_in_the_path() {
    let person = Person { client: client() };
    let params = RetrievePersonParams {
        base_params: pretty(),
        person_id: "qEnOZ5Oh0poWnQ1luFBfVw_0000".to_string(),
    };
    assert_eq!(
        person.retrieve(params),
        get("/person/retrieve/qEnOZ5Oh0poWnQ1luFBfVw_0000?pretty=true")
    );
    let bare = RetrievePersonParams { base_params: None, person_id: "82MYIGZzMttzdyKiQBv4ZQ_0000".to_string() };
    assert_eq!(person.retrieve(bare), get("/person/retrieve/82MYIGZzMttzdyKiQBv4ZQ_0000?"));
    let empty = RetrievePersonParams { base_params: pretty(), person_id: String::new() };
    assert_eq!(person.retrieve(empty), Err(PDLError::ValidationError));
}

#[test]
fn person_bulk_enrich() {
    let person = Person { client: client() };
    let mut first = PersonParams::default();
    first.profile = Some(vec!["linkedin.com/in/seanthorne".to_string()]);
    let mut second = PersonParams::default();
    second.profile = Some(vec!["https://www.linkedin.com/in/haydenconrad/".to_string()]);
    let params = BulkEnrichPersonParams {
        requires: None,
        requests: vec![
            BulkEnrichSinglePersonParams { params: first, metadata: None },
            BulkEnrichSinglePersonParams { params: second, metadata: None },
        ],
    };
    assert_eq!(
        person.bulk_enrich(params),
        post(
            "/person/bulk",
            "{\"requests\":[{\"params\":{\"profile\":\"linkedin.com/in/seanthorne\"}},{\"params\":{\"profile\":\"https://www.linkedin.com/in/haydenconrad/\"}}]}"
        )
    );
    let spoiled = BulkEnrichPersonParams {
        requires: None,
        requests: vec![BulkEnrichSinglePersonParams {
            params: PersonParams::default(),
            metadata: None,
        }],
    };
    assert_eq!(person.bulk_enrich(spoiled.clone()), Err(PDLError::ValidationError));
    assert_eq!(
        person.bulk_enrich_with(spoiled, IdentityRule::DetailAbsent),
        post("/person/bulk", "{\"requests\":[{\"params\":{}}]}")
    );    let empty = BulkEnrichPersonParams { requires: None, requests: Vec::new() };
    assert_eq!(person.bulk_enrich(empty.clone()), Err(PDLError::ValidationError));
    assert_eq!(
        person.bulk_enrich_with(empty, IdentityRule::DetailAbsent),
        Err(PDLError::ValidationError)
    );
}

#[test]
fn person_bulk_retrieve() {
    let person = Person { client: client() };
    let params = BulkRetrievePersonParams {
        base_params: pretty(),
        requests: vec![
            BulkRetrieveSinglePersonParams {
                id: "qEnOZ5Oh0poWnQ1luFBfVw_0000".to_string(),
                metadata: None,
            },
            BulkRetrieveSinglePersonParams {
                id: "9Grd31hT3RFKVzsyecBGPg_0000".to_string(),
                metadata: None,
            },
        ],
        additional_params: None,
    };
    assert_eq!(
        person.bulk_retrieve(params),
        post(
            "/person/retrieve/bulk",
            "{\"pretty\":true,\"requests\":[{\"id\":\"qEnOZ5Oh0poWnQ1luFBfVw_0000\"},{\"id\":\"9Grd31hT3RFKVzsyecBGPg_0000\"}]}"
        )
    );
    assert_eq!(
        person.bulk_retrieve(BulkRetrievePersonParams::default()),
        Err(PDLError::ValidationError)
    );
}

#[test]
fn asking_twice_gives_the_same_request() {
    let person = Person { client: client() };
    let mut person_params = PersonParams::default();
    person_params.email = Some(vec!["a@x.org".to_string(), "b@x.org".to_string()]);
    let params = EnrichPersonParams { base_params: pretty(), person_params, additional_params: None };
    assert_eq!(person.enrich(params.clone()), person.enrich(params));
}
