use vigia::hostname::{parse, parse_url, target_from_url_outcome, HostnameError};

#[test]
fn parses_canonical_4_part() {
    let t = parse("vault.rio.bristol.quero.cloud").unwrap();
    assert_eq!(t.app, "vault");
    assert_eq!(t.cluster, "rio");
    assert_eq!(t.location, "bristol");
}

#[test]
fn parses_url_form() {
    let t = parse_url("https://photos.mar.parnamirim.quero.cloud/album/1").unwrap();
    assert_eq!(t.app, "photos");
    assert_eq!(t.cluster, "mar");
    assert_eq!(t.location, "parnamirim");
}

#[test]
fn rejects_3_part() {
    let r = parse("vault.quero.cloud");
    assert!(r.is_err());
}

#[test]
fn rejects_2_part() {
    let r = parse("quero.cloud");
    assert!(r.is_err());
}

#[test]
fn handles_subpaths_in_url() {
    // Subpath shouldn't affect parsing.
    let t = parse_url("https://chat.rio.bristol.quero.cloud/api/v1/messages").unwrap();
    assert_eq!(t.app, "chat");
}

#[test]
fn four_labels_are_not_enough() {
    assert_eq!(
        parse("vault.rio.bristol.cloud"),
        Err(HostnameError::NotFourPart("vault.rio.bristol.cloud".into()))
    );
}

#[test]
fn longer_tld_is_accepted() {
    let t = parse("vault.rio.bristol.example.co.uk").unwrap();
    assert_eq!((t.app.as_str(), t.cluster.as_str(), t.location.as_str()), ("vault", "rio", "bristol"));
}

#[test]
fn empty_labels_count() {
    let t = parse("..x..").unwrap();
    assert_eq!((t.app.as_str(), t.cluster.as_str(), t.location.as_str()), ("", "", "x"));
}

#[test]
fn invalid_url_is_reported() {
    let e = parse_url("not a url").unwrap_err();
    assert_eq!(e, HostnameError::InvalidUrl("relative URL without a base".into()));
    assert_eq!(e.message(), "invalid URL: relative URL without a base");
}

#[test]
fn url_without_host_is_reported() {
    assert_eq!(parse_url("unix:/run/sock"), Err(HostnameError::MissingHost));
    assert_eq!(HostnameError::MissingHost.message(), "missing host in URL");
}

#[test]
fn url_outcome_mapping() {
    assert_eq!(target_from_url_outcome(Err("boom".into())), Err(HostnameError::InvalidUrl("boom".into())));
    assert_eq!(target_from_url_outcome(Ok(None)), Err(HostnameError::MissingHost));
    assert_eq!(
        target_from_url_outcome(Ok(Some("a.b.c.d.e".into()))).unwrap().location,
        "c"
    );
    assert_eq!(
        HostnameError::NotFourPart("x.y".into()).message(),
        "not a 4-part saguão hostname: x.y"
    );
}

#[test]
fn first_three_labels_whatever_the_tld() {
    let t = parse("grafana.mar.parnamirim.example.co.uk").unwrap();
    assert_eq!((t.app.as_str(), t.cluster.as_str(), t.location.as_str()), ("grafana", "mar", "parnamirim"));
    let t = parse("..x.a.b").unwrap();
    assert_eq!((t.app.as_str(), t.cluster.as_str(), t.location.as_str()), ("", "", "x"));
}
