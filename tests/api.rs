use cov19api::structures::{ApiError, ApiErrorKind, AreaType, Filters, Structures};
use cov19api::{check_filter, read_response, Cov19api, ENDPOINT};

fn s(x: &str) -> String {
    String::from(x)
}

#[test]
fn it_works() {
    assert_eq!(2 + 2, 4);
}

#[test]
fn unknown_filter_is_refused_with_the_filter_names() {
    let mut api = Cov19api::new();
    let err = api.set_filter_string(s("region"), s("x")).unwrap_err();
    assert_eq!(err.kind, ApiErrorKind::InvalidFilter);
    assert_eq!(
        err.msg,
        "Invalid filter name provided: region\nNeeds to be one of: areaType, areaName, areaCode, date"
    );
    assert_eq!(api.request_url(), format!("{}&format=json&page=1", ENDPOINT));
}

#[test]
fn filter_names_are_case_sensitive() {
    let mut api = Cov19api::new();
    for name in ["areatype", "AreaName", "", "date ", "hash"] {
        let err = api.set_filter_string(s(name), s("x")).unwrap_err();
        assert_eq!(err.kind, ApiErrorKind::InvalidFilter);
    }
}

#[test]
fn area_type_values_are_checked() {
    let mut api = Cov19api::new();
    let err = api.set_filter_string(s("areaType"), s("country")).unwrap_err();
    assert_eq!(err.kind, ApiErrorKind::InvalidFilterValue);
    assert_eq!(
        err.msg,
        "Invalid area type provided: country\nNeeds to be one of: overview, nation, region, nhsRegion, utla, ltla"
    );
    for value in ["overview", "nation", "region", "nhsRegion", "utla", "ltla"] {
        assert!(api.set_filter_string(s("areaType"), s(value)).is_ok());
    }
    let err = api.set_filter_enum(Filters::areaType, s("Nation")).unwrap_err();
    assert_eq!(err.kind, ApiErrorKind::InvalidFilterValue);
}

#[test]
fn area_name_and_code_take_any_value() {
    let mut api = Cov19api::new();
    assert!(api.set_filter_string(s("areaName"), s("england")).is_ok());
    assert!(api.set_filter_string(s("areaCode"), s("")).is_ok());
    assert!(api.set_filter_enum(Filters::areaName, s("not a place")).is_ok());
    assert_eq!(
        api.request_url(),
        format!("{}?filters=areaName=not a place;areaCode=&format=json&page=1", ENDPOINT)
    );
}

#[test]
fn dates_must_have_the_form_of_a_date() {
    let mut api = Cov19api::new();
    assert!(api.set_filter_string(s("date"), s("2020-09-12")).is_ok());
    assert!(api.set_filter_enum(Filters::date, s("2020-9-1")).is_ok());
    for bad in ["2020-13-01", "12/09/2020", "2020-09-32", "20-09-12", "yesterday"] {
        let err = api.set_filter_string(s("date"), s(bad)).unwrap_err();
        assert_eq!(err.kind, ApiErrorKind::InvalidFilterValue);
        assert_eq!(
            err.msg,
            format!("Invalid date provided: {}\nNeeds to be in the format YYYY-MM-DD", bad)
        );
    }
    assert_eq!(
        api.request_url(),
        format!("{}?filters=date=2020-9-1&format=json&page=1", ENDPOINT)
    );
}

#[test]
fn check_filter_takes_the_date_verdict_as_given() {
    assert!(check_filter(&s("date"), &s("anything"), true).is_ok());
    let err = check_filter(&s("date"), &s("2020-09-12"), false).unwrap_err();
    assert_eq!(err.kind, ApiErrorKind::InvalidFilterValue);
    assert!(check_filter(&s("areaCode"), &s("E92000001"), false).is_ok());
    let err = check_filter(&s("areaType"), &s("x"), true).unwrap_err();
    assert_eq!(err.kind, ApiErrorKind::InvalidFilterValue);
    let err = check_filter(&s("region"), &s("x"), true).unwrap_err();
    assert_eq!(err.kind, ApiErrorKind::InvalidFilter);
}

#[test]
fn unknown_structure_is_refused() {
    let mut api = Cov19api::new();
    let err = api.set_structure_string(s("totallyUnknownField")).unwrap_err();
    assert_eq!(err.kind, ApiErrorKind::InvalidStructure);
    assert!(err.msg.starts_with(
        "Invalid structure name provided: totallyUnknownField\nNeeds to be one of: areaType, areaName, "
    ));
    assert!(err.msg.ends_with("cumDeaths28DaysByDeathDateRate"));
    let err = api
        .set_structure_string_rename(s("malecases"), s("m"))
        .unwrap_err();
    assert_eq!(err.kind, ApiErrorKind::InvalidStructure);
    assert_eq!(api.request_url(), format!("{}&format=json&page=1", ENDPOINT));
}

#[test]
fn every_structure_field_is_accepted_under_its_own_name() {
    for name in Structures::to_vec() {
        let mut api = Cov19api::new();
        assert!(api.set_structure_string(name.clone()).is_ok());
        assert_eq!(
            api.request_url(),
            format!("{}?structure={{\"{}\":\"{}\"}}&format=json&page=1", ENDPOINT, name, name)
        );
    }
}

#[test]
fn structure_alias_is_kept_and_replaced() {
    let mut api = Cov19api::new();
    assert!(api.set_structure_string_rename(s("newAdmissions"), s("admissions")).is_ok());
    assert!(api.set_structure_enum(Structures::hash).is_ok());
    assert!(api.set_structure_string_rename(s("newAdmissions"), s("adm")).is_ok());
    assert_eq!(
        api.request_url(),
        format!(
            "{}?structure={{\"newAdmissions\":\"adm\",\"hash\":\"hash\"}}&format=json&page=1",
            ENDPOINT
        )
    );
}

#[test]
fn setting_area_type_twice_keeps_one_entry() {
    let mut api = Cov19api::new();
    assert!(api.set_filter_string(s("areaType"), s("nation")).is_ok());
    assert!(api.set_filter_string(s("areaType"), s("nation")).is_ok());
    let url = api.request_url();
    assert_eq!(url.matches("areaType=").count(), 1);
    assert_eq!(url, format!("{}?filters=areaType=nation&format=json&page=1", ENDPOINT));
}

#[test]
fn a_later_value_replaces_an_earlier_one() {
    let mut api = Cov19api::new();
    assert!(api.set_filter_string(s("areaType"), s("region")).is_ok());
    assert!(api.set_filter_string(s("areaName"), s("london")).is_ok());
    assert!(api.set_filter_string(s("areaType"), s("utla")).is_ok());
    assert_eq!(
        api.request_url(),
        format!("{}?filters=areaType=utla;areaName=london&format=json&page=1", ENDPOINT)
    );
}

#[test]
fn cleared_query_is_the_bare_address() {
    let mut api = Cov19api::default();
    assert!(api.set_filter_string(s("areaType"), s("nation")).is_ok());
    assert!(api.set_structure_enum(Structures::maleCases).is_ok());
    api.clear();
    assert_eq!(
        api.request_url(),
        "https://api.coronavirus.data.gov.uk/v1/data&format=json&page=1"
    );
}

#[test]
fn filters_then_structure_then_fixed_end() {
    let mut api = Cov19api::new();
    assert!(api.set_filter_enum(Filters::areaType, s("nation")).is_ok());
    assert!(api.set_filter_enum(Filters::areaName, s("england")).is_ok());
    assert!(api.set_structure_string(s("maleCases")).is_ok());
    let url = api.request_url();
    let first = format!(
        "{}?filters=areaType=nation;areaName=england&structure={{\"maleCases\":\"maleCases\"}}&format=json&page=1",
        ENDPOINT
    );
    let second = format!(
        "{}?filters=areaName=england;areaType=nation&structure={{\"maleCases\":\"maleCases\"}}&format=json&page=1",
        ENDPOINT
    );
    assert!(url == first || url == second);
}

#[test]
fn sample_query_address() {
    assert_eq!(
        cov19api::test(),
        "https://api.coronavirus.data.gov.uk/v1/data?filters=areaType=nation;areaName=england&structure={\"maleCases\":\"maleCases\",\"femaleCases\":\"femaleCases\"}&format=json&page=1"
    );
}

#[test]
fn transport_failure_is_passed_on() {
    let err = read_response(Err(s("connection refused"))).unwrap_err();
    assert_eq!(err.kind, ApiErrorKind::TransportError);
    assert_eq!(err.msg, "connection refused");
}

#[test]
fn body_must_be_json() {
    let err = read_response(Ok(s("<html>busy</html>"))).unwrap_err();
    assert_eq!(err.kind, ApiErrorKind::DecodeError);
    let value = read_response(Ok(s("{\"data\":[{\"date\":\"2020-09-12\"}],\"length\":1}"))).unwrap();
    assert_eq!(value["length"], 1);
    assert_eq!(value["data"][0]["date"], "2020-09-12");
}

#[test]
fn filter_listings() {
    assert_eq!(Filters::to_vec(), vec![s("areaType"), s("areaName"), s("areaCode"), s("date")]);
    assert_eq!(Filters::to_string(), "areaType\nareaName\nareaCode\ndate\n");
    assert_eq!(
        Filters::field_descriptions(),
        " areaType - Area type as string\n areaName - Area name as string\n areaCode - Area Code as string\n date - Date as string [YYYY-MM-DD]\n"
    );
}

#[test]
fn area_type_listings() {
    assert_eq!(
        AreaType::to_vec(),
        vec![s("overview"), s("nation"), s("region"), s("nhsRegion"), s("utla"), s("ltla")]
    );
    assert_eq!(AreaType::to_string(), "overview\nnation\nregion\nnhsRegion\nutla\nltla\n");
    let d = AreaType::field_description();
    assert_eq!(d.lines().count(), 6);
    assert!(d.starts_with(" overview - Overview data for the United Kingdom\n"));
    assert!(d.ends_with(" ltla - Lower-tier local authority data\n"));
}

#[test]
fn structure_listings() {
    let names = Structures::to_vec();
    assert_eq!(names.len(), 33);
    assert_eq!(names[0], "areaType");
    assert_eq!(names[9], "maleCases");
    assert_eq!(names[32], "cumDeaths28DaysByDeathDateRate");
    assert_eq!(Structures::to_string(), names.iter().map(|n| format!("{}\n", n)).collect::<String>());
    let d = Structures::field_description();
    assert_eq!(d.lines().count(), 33);
    for (line, name) in d.lines().zip(names.iter()) {
        assert!(line.starts_with(&format!(" {} - ", name)));
    }
    assert!(d.contains("\n maleCases - Male cases (by age)\n"));
}

#[test]
fn error_in_one_line() {
    let e = ApiError { kind: ApiErrorKind::InvalidStructure, msg: s("bad") };
    assert_eq!(e.to_string(), "Type:InvalidStructure, Msg: bad");
}
