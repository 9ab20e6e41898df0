use peopledatalabs::models::common::param_serialize;
use peopledatalabs::query::{encode_query, query_outcome, to_query_pairs};
use peopledatalabs::wire::{decimal_nat_string, decimal_string, join_strings, scalar_string};
use peopledatalabs::{
    AdditionalParams, BaseParams, CompanyParams, EnrichPersonParams, Field, PDLError,
    PersonParams, WireValue,
};

fn strings(items: &[&str]) -> Vec<String> {
    items.iter().map(|s| s.to_string()).collect()
}

fn text(key: &str, value: &str) -> Field {
    (key.to_string(), WireValue::Text(value.to_string()))
}

#[test]
fn a_list_goes_out_as_one_joined_text() {
    let list = Some(strings(&["a", "b", "c"]));
    assert_eq!(param_serialize(&list), Some("a, b, c".to_string()));
}

#[test]
fn an_absent_list_has_no_text() {
    assert_eq!(param_serialize(&None), None);
}

#[test]
fn join_puts_the_separator_between_items_only() {
    assert_eq!(join_strings(&strings(&[]), ", "), "");
    assert_eq!(join_strings(&strings(&["one"]), ", "), "one");
    assert_eq!(join_strings(&strings(&["one", "two"]), ", "), "one, two");
    assert_eq!(join_strings(&strings(&["a", "b", "c"]), ","), "a,b,c");
}

#[test]
fn empty_items_are_joined_like_any_other() {
    assert_eq!(param_serialize(&Some(strings(&[""]))), Some("".to_string()));
    assert_eq!(param_serialize(&Some(strings(&["", ""]))), Some(", ".to_string()));
    let mut person = PersonParams::default();
    person.name = Some(strings(&["", ""]));
    assert_eq!(person.fields(), vec![text("name", ", ")]);
    person.name = Some(strings(&[""]));
    assert_eq!(person.fields(), vec![text("name", "")]);
    person.name = Some(strings(&[]));
    assert_eq!(person.fields(), vec![text("name", "")]);
    assert_eq!(
        peopledatalabs::query::encode_query(&person.fields()),
        Ok("name=".to_string())
    );
}

#[test]
fn a_person_list_stands_under_its_key_as_one_text() {
    let mut person = PersonParams::default();
    person.email = Some(strings(&["a@x.org", "b@x.org", "c@x.org"]));
    assert_eq!(person.fields(), vec![text("email", "a@x.org, b@x.org, c@x.org")]);
}

#[test]
fn absent_fields_leave_no_key() {
    assert_eq!(PersonParams::default().fields(), Vec::<Field>::new());
    assert_eq!(CompanyParams::default().fields(), Vec::<Field>::new());
    assert_eq!(BaseParams::default().fields(), Vec::<Field>::new());
    assert_eq!(AdditionalParams::default().fields(), Vec::<Field>::new());
}

#[test]
fn person_fields_keep_the_order_of_declaration() {
    let person = PersonParams {
        pdl_id: Some(strings(&["1"])),
        name: Some(strings(&["2"])),
        first_name: Some(strings(&["3"])),
        last_name: Some(strings(&["4"])),
        middle_name: Some(strings(&["5"])),
        location: Some(strings(&["6"])),
        street_address: Some("7".to_string()),
        locality: Some("8".to_string()),
        region: Some("9".to_string()),
        country: Some("10".to_string()),
        postal_code: Some(strings(&["11"])),
        company: Some(strings(&["12"])),
        school: Some(strings(&["13"])),
        phone: Some(strings(&["14"])),
        email: Some(strings(&["15"])),
        email_hash: Some(strings(&["16"])),
        profile: Some(strings(&["17"])),
        lid: Some(strings(&["18"])),
        birth_date: Some(strings(&["19"])),
    };
    let keys: Vec<String> = person.fields().into_iter().map(|f| f.0).collect();
    assert_eq!(
        keys,
        strings(&[
            "pdl_id",
            "name",
            "first_name",
            "last_name",
            "middle_name",
            "location",
            "street_address",
            "locality",
            "region",
            "country",
            "postal_code",
            "company",
            "school",
            "phone",
            "email",
            "email_hash",
            "profile",
            "lid",
            "birth_date",
        ])
    );
}

#[test]
fn company_locations_are_joined() {
    let mut company = CompanyParams::default();
    company.name = Some("google".to_string());
    company.location = Some(strings(&["mountain view", "california"]));
    assert_eq!(
        company.fields(),
        vec![text("name", "google"), text("location", "mountain view, california")]
    );
}

#[test]
fn groups_are_flattened_to_one_level() {
    let mut person = PersonParams::default();
    person.profile = Some(strings(&["linkedin.com/in/seanthorne"]));
    let params = EnrichPersonParams {
        base_params: Some(BaseParams { pretty: Some(true), size: Some(3) }),
        person_params: person,
        additional_params: Some(AdditionalParams {
            min_likelihood: Some(6),
            required: None,
            titlecase: Some(false),
            data_include: Some("names".to_string()),
            include_if_matched: None,
        }),
    };
    assert_eq!(
        params.fields(),
        vec![
            ("pretty".to_string(), WireValue::Bool(true)),
            ("size".to_string(), WireValue::Int(3)),
            text("profile", "linkedin.com/in/seanthorne"),
            ("min_likelihood".to_string(), WireValue::Int(6)),
            ("titlecase".to_string(), WireValue::Bool(false)),
            text("data_include", "names"),
        ]
    );
}

#[test]
fn numbers_are_written_in_decimal() {
    assert_eq!(decimal_string(0), "0");
    assert_eq!(decimal_string(7), "7");
    assert_eq!(decimal_string(10), "10");
    assert_eq!(decimal_string(1000), "1000");
    assert_eq!(decimal_string(-1), "-1");
    assert_eq!(decimal_string(-120), "-120");
    assert_eq!(decimal_string(i32::MAX), "2147483647");
    assert_eq!(decimal_string(i32::MIN), "-2147483648");
    assert_eq!(decimal_nat_string(0), "0");
    assert_eq!(decimal_nat_string(429), "429");
    assert_eq!(decimal_nat_string(u32::MAX), "4294967295");
}

#[test]
fn decimal_agrees_with_the_standard_formatting() {
    for n in [-100000, -99, -10, -9, 0, 1, 9, 10, 11, 99, 100, 101, 65535, 123456789] {
        assert_eq!(decimal_string(n), format!("{}", n));
    }
}

#[test]
fn scalars_are_written_as_plain_text() {
    assert_eq!(scalar_string(&WireValue::Bool(true)), "true");
    assert_eq!(scalar_string(&WireValue::Bool(false)), "false");
    assert_eq!(scalar_string(&WireValue::Int(-42)), "-42");
    assert_eq!(scalar_string(&WireValue::Text("as is".to_string())), "as is");
}

#[test]
fn query_pairs_keep_keys_and_order() {
    let fields = vec![
        ("pretty".to_string(), WireValue::Bool(true)),
        ("size".to_string(), WireValue::Int(10)),
        text("name", "a, b"),
    ];
    assert_eq!(
        to_query_pairs(&fields),
        vec![
            ("pretty".to_string(), "true".to_string()),
            ("size".to_string(), "10".to_string()),
            ("name".to_string(), "a, b".to_string()),
        ]
    );
}

#[test]
fn the_query_string_is_form_encoded() {
    let fields = vec![text("location", "New York, NY")];
    assert_eq!(encode_query(&fields), Ok("location=New+York%2C+NY".to_string()));
}

#[test]
fn the_query_string_separates_pairs_with_ampersands() {
    let fields = vec![
        ("pretty".to_string(), WireValue::Bool(true)),
        text("sql", "SELECT * FROM company WHERE website='google.com';"),
    ];
    assert_eq!(
        encode_query(&fields),
        Ok("pretty=true&sql=SELECT+*+FROM+company+WHERE+website%3D%27google.com%27%3B".to_string())
    );
}

#[test]
fn no_fields_give_an_empty_query_string() {
    assert_eq!(encode_query(&Vec::new()), Ok(String::new()));
}

#[test]
fn an_encoder_error_is_a_serialization_error() {
    let refused = serde_urlencoded::to_string(5);
    assert!(refused.is_err());
    assert_eq!(query_outcome(refused), Err(PDLError::SerializationError));
    assert_eq!(query_outcome(Ok("a=b".to_string())), Ok("a=b".to_string()));
}

#[test]
fn encoding_twice_gives_the_same_bytes() {
    let mut person = PersonParams::default();
    person.name = Some(strings(&["josh finnie", "j. finnie"]));
    person.location = Some(strings(&["washington, dc"]));
    let first = encode_query(&person.fields());
    let second = encode_query(&person.fields());
    assert_eq!(first, second);
    assert_eq!(
        first,
        Ok("name=josh+finnie%2C+j.+finnie&location=washington%2C+dc".to_string())
    );
}
