use nutt_web_macro::addr::include_addr;
use nutt_web_macro::addr::is_conf_file_name;
use nutt_web_macro::analyze::classify;
use nutt_web_macro::model::ParamCategory;
use nutt_web_macro::model::TransformError;
use nutt_web_macro::model::TypeDesc;
use nutt_web_macro::synth::method_for_keyword;

fn path_ty(first_segment: &str) -> TypeDesc {
    TypeDesc::Path {
        first_segment: first_segment.to_string(),
        rendered: first_segment.to_string(),
    }
}

#[test]
fn recognized_markers_select_their_categories() {
    assert_eq!(classify(&path_ty("State")), ParamCategory::State);
    assert_eq!(classify(&path_ty("CookieSession")), ParamCategory::Session);
    assert_eq!(classify(&path_ty("CookieJar")), ParamCategory::CookieJar);
}

#[test]
fn every_other_first_segment_is_body() {
    assert_eq!(classify(&path_ty("CreateUser")), ParamCategory::Body);
    assert_eq!(classify(&path_ty("state")), ParamCategory::Body);
    assert_eq!(classify(&path_ty("Statefull")), ParamCategory::Body);
    assert_eq!(classify(&path_ty("Cookie")), ParamCategory::Body);
    assert_eq!(classify(&path_ty("")), ParamCategory::Body);
    let r = TypeDesc::Other { rendered: "&mut Thing".to_string() };
    assert_eq!(classify(&r), ParamCategory::Body);
}

#[test]
fn the_four_method_keywords_map_and_others_abort() {
    assert!(method_for_keyword("get").is_ok());
    assert!(method_for_keyword("post").is_ok());
    assert!(method_for_keyword("put").is_ok());
    assert!(method_for_keyword("delete").is_ok());
    assert_eq!(method_for_keyword("patch").err(), Some(TransformError::UnsupportedMethod));
    assert_eq!(method_for_keyword("GET").err(), Some(TransformError::UnsupportedMethod));
    assert_eq!(method_for_keyword("").err(), Some(TransformError::UnsupportedMethod));
}

#[test]
fn build_addresses_embed_config_and_package() {
    let a = include_addr("127.0.0.1".to_string(), 3000, "auth-service".to_string());
    assert_eq!(a.local.host, "127.0.0.1");
    assert_eq!(a.local.port, 3000);
    assert_eq!(a.docker.host, "auth-service");
    assert_eq!(a.docker.port, 80);
}

#[test]
fn only_the_configuration_file_name_matches() {
    assert!(is_conf_file_name("nutt.conf.toml"));
    assert!(!is_conf_file_name("nutt.conf"));
    assert!(!is_conf_file_name("Cargo.toml"));
    assert!(!is_conf_file_name(""));
}
