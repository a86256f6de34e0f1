use xds_transport::address::{
    bare_of, host_of, https_uri_of, names_https, names_scheme, names_unix_socket,
};

#[test]
fn bare_address_stands_behind_the_scheme() {
    assert_eq!(bare_of("https://xds.example.com:443"), "xds.example.com:443");
    assert_eq!(bare_of("http://xds.example.com/a://b"), "xds.example.com/a://b");
    assert_eq!(bare_of("x+1-2.3~Z://c"), "c");
    assert_eq!(bare_of("unix://\u{e9}"), "\u{e9}");
    assert_eq!(bare_of("a://"), "");
}

#[test]
fn address_that_starts_with_no_scheme_is_bare() {
    for address in [
        "xds.example.com:443",
        "td.example.com/a://b.example.net",
        "td.example.com:443/a://b",
        "user@td.example.com://b",
        "a:b://c",
        "://x",
        ":://x",
        "_://x",
        "\u{fc}://x",
        "a:/b//c",
        "a:/",
        ":/",
        ":",
        "unix:/run/xds",
        "",
    ] {
        assert!(!names_scheme(address));
        assert_eq!(bare_of(address), address);
        assert_eq!(https_uri_of(address), format!("https://{}", address));
    }
    for address in ["http://a", "ftp://", "unix:///run/xds", "1.2://x"] {
        assert!(names_scheme(address));
    }
}

#[test]
fn host_is_read_off_the_whole_address_without_a_scheme() {
    assert_eq!(host_of("td.example.com/a://b.example.net"), "td.example.com/a");
    assert_eq!(host_of("td.example.com/a://b.example.net:443"), "td.example.com/a://b.example.net");
    assert_eq!(host_of("://x"), "");
    assert_eq!(host_of("https://td.example.com/"), "td.example.com/");
}

#[test]
fn host_is_what_stands_before_the_last_colon() {
    assert_eq!(host_of("trafficdirector.googleapis.com:443"), "trafficdirector.googleapis.com");
    assert_eq!(host_of("[::1]:443"), "[::1]");
    assert_eq!(host_of("name:"), "name");
    assert_eq!(host_of(":443"), "");
    assert_eq!(host_of("\u{fc}n\u{ef}c\u{f6}d\u{e9}:1"), "\u{fc}n\u{ef}c\u{f6}d\u{e9}");
}

#[test]
fn host_has_no_scheme() {
    assert_eq!(host_of("https://xds.example.com:443"), "xds.example.com");
    assert_eq!(host_of("https://xds.example.com"), "xds.example.com");
    assert_eq!(host_of("http://[::1]:18000"), "[::1]");
    assert_eq!(host_of("https://"), "");
}

#[test]
fn address_without_colon_is_its_own_host() {
    assert_eq!(host_of("xds.example.com"), "xds.example.com");
    assert_eq!(host_of(""), "");
}

#[test]
fn https_is_put_before_an_address_without_scheme() {
    assert_eq!(
        https_uri_of("trafficdirector.googleapis.com:443"),
        "https://trafficdirector.googleapis.com:443"
    );
    assert_eq!(https_uri_of(""), "https://");
    assert_eq!(https_uri_of("unix:/run/xds"), "https://unix:/run/xds");
}

#[test]
fn https_takes_the_place_of_another_scheme() {
    assert_eq!(https_uri_of("http://xds.example.com:18000"), "https://xds.example.com:18000");
    assert_eq!(https_uri_of("unix:///run/xds"), "https:///run/xds");
    assert_eq!(https_uri_of("HTTPS://xds.example.com"), "https://xds.example.com");
}

#[test]
fn https_is_put_once() {
    assert_eq!(https_uri_of("https://xds.example.com:443"), "https://xds.example.com:443");
    let once = https_uri_of("xds.example.com");
    assert_eq!(https_uri_of(&once), once);
}

#[test]
fn https_is_known_in_either_case() {
    for address in ["https://xds.example.com:443", "HTTPS://xds.example.com", "hTtPs://"] {
        assert!(names_https(address));
    }
    for address in ["http://xds.example.com", "xds.example.com", "https:/xds", "xhttps://a", ""] {
        assert!(!names_https(address));
    }
}

#[test]
fn unix_sockets_are_known_by_their_prefix() {
    for address in ["unix:///etc/istio/proxy/XDS", "unix:/run/xds", "unix:"] {
        assert!(names_unix_socket(address));
    }
    for address in ["https://unix:/run/xds", "UNIX:/run/xds", "unix", "unix/run/xds", ""] {
        assert!(!names_unix_socket(address));
    }
}
