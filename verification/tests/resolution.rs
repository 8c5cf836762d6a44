use dirs::home_dir;
use dotctl::appconf::LinkMode;
use dotctl::appconf::LinkResolutionError;
use dotctl::appconf::LinkSpec;

#[test]
fn test_link_specs_are_comparable() {
    let s = "~/appconfs/app.conf";
    let t = "~/.appconf";

    let spec1 = LinkSpec::new(s, t, LinkMode::Link);
    let spec2 = LinkSpec::new(s, t, LinkMode::Link);

    assert_eq!(spec1, spec2);
}

#[test]
fn test_link_specs_differ_when_paths_do_not_match() {
    let s = "~/appconfs/app.conf";
    let t = "~/.appconf";

    let spec1 = LinkSpec::new(s, t, LinkMode::Link);
    let spec2 = LinkSpec::new(s, s, LinkMode::Link);

    assert_ne!(spec1, spec2);
}

#[test]
fn test_link_specs_differ_when_link_modes_do_not_match() {
    let s = "~/appconfs/app.conf";
    let t = "~/.appconf";

    let spec1 = LinkSpec::new(s, t, LinkMode::Link);
    let spec2 = LinkSpec::new(s, t, LinkMode::Copy);

    assert_ne!(spec1, spec2);
}

#[test]
fn test_link_mode_is_publicly_visible() {
    let s = "~/appconfs/app.conf";
    let t = "~/.appconf";

    let spec1 = LinkSpec::new(s, t, LinkMode::Link);
    let spec2 = LinkSpec::new(s, t, LinkMode::Copy);

    assert_eq!(spec1.get_link_strategy(), &LinkMode::Link);
    assert_eq!(spec2.get_link_strategy(), &LinkMode::Copy);
    assert_ne!(spec1.get_link_strategy(), spec2.get_link_strategy());
}

#[test]
fn test_source_resolution_of_absolute_path() {
    let s = "/etc/app/app.conf";
    let t = "";

    let spec = LinkSpec::new(s, t, LinkMode::Link);
    let res = spec.get_resolved_source(None);

    assert!(res.is_ok());
    assert_eq!(s, res.unwrap());
}

#[test]
fn test_source_resolution_with_tilde() {
    let s = "~/appconfs/app.conf";
    let t = "";
    let home = home_dir().unwrap();

    let spec = LinkSpec::new(s, t, LinkMode::Link);
    let res = spec.get_resolved_source(None);

    assert!(res.is_ok());
    assert!(res.unwrap().starts_with(home.to_str().unwrap()));
}

#[test]
fn test_source_resolution_with_parent() {
    let s = "appconfs/app.conf";
    let t = "";

    let spec = LinkSpec::new(s, t, LinkMode::Link);
    let res = spec.get_resolved_source(Some("/var/etc/"));

    assert!(res.is_ok());
    assert_eq!(res.unwrap(), "/var/etc/appconfs/app.conf");
}

#[test]
fn test_source_resolution_with_parent_that_introduces_tilde() {
    let s = "appconfs/app.conf";
    let t = "";
    let home = home_dir().unwrap();

    let spec = LinkSpec::new(s, t, LinkMode::Link);
    let res = spec.get_resolved_source(Some("~/.config"));

    assert!(res.is_ok());
    assert!(res.unwrap().starts_with(home.to_str().unwrap()));
}

#[test]
fn test_source_resolution_without_parent_fails() {
    let s = "appconfs/app.conf";
    let t = "";

    let spec = LinkSpec::new(s, t, LinkMode::Copy);
    let res = spec.get_resolved_source(None);

    assert!(res.is_err());
}

#[test]
fn test_target_resolution_of_absolute_path() {
    let s = "/etc/app/app.conf";
    let t = "";

    let spec = LinkSpec::new(t, s, LinkMode::Link);
    let res = spec.get_resolved_target();

    assert!(res.is_ok());
    assert_eq!(s, res.unwrap());
}

#[test]
fn test_target_resolution_of_relative_path_fails() {
    let s = "appconfs/app.conf";
    let t = "";

    let spec = LinkSpec::new(t, s, LinkMode::Copy);
    let res = spec.get_resolved_target();

    assert!(res.is_err());
}

#[test]
fn test_target_resolution_with_tilde() {
    let s = "~/appconfs/app.conf";
    let t = "";
    let home = home_dir().unwrap();

    let spec = LinkSpec::new(t, s, LinkMode::Link);
    let res = spec.get_resolved_target();

    assert!(res.is_ok());
    assert!(res.unwrap().starts_with(home.to_str().unwrap()));
}

#[test]
fn relative_source_with_absolute_parent_keeps_structure() {
    let spec = LinkSpec::new("a/b", "", LinkMode::Link);
    let res = spec.get_resolved_source(Some("/etc/x"));
    assert_eq!(res.unwrap(), "/etc/x/a/b");
}

#[test]
fn relative_source_without_parent_names_the_error() {
    let spec = LinkSpec::new("a/b", "", LinkMode::Link);
    let res = spec.get_resolved_source(None);
    assert_eq!(res.unwrap_err(), LinkResolutionError::ResolverNotApplicable);
}

#[test]
fn relative_target_names_the_error() {
    let spec = LinkSpec::new("", "a/b", LinkMode::Link);
    let res = spec.get_resolved_target();
    assert_eq!(res.unwrap_err(), LinkResolutionError::ResolverNotApplicable);
}
