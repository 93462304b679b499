use wt_echo::assets::{
    AssetKind, Assets, CLIENT_HEAD, CLIENT_TAIL, HTTP_PORT, INDEX_HEAD, INDEX_TAIL, STYLE_DATA,
};
use wt_echo::decimal::decimal_text;
use wtransport::tls::{Sha256Digest, Sha256DigestFmt};

const DOC_DIGEST: [u8; 32] = [
    97, 98, 99, 100, 101, 102, 103, 104, 105, 106, 107, 108, 109, 110, 111, 112, 113, 114, 115,
    116, 117, 118, 119, 120, 121, 122, 123, 124, 125, 126, 127, 64,
];

#[test]
fn decimal_text_renders_ports() {
    assert_eq!(decimal_text(0), "0");
    assert_eq!(decimal_text(7), "7");
    assert_eq!(decimal_text(10), "10");
    assert_eq!(decimal_text(8080), "8080");
    assert_eq!(decimal_text(65535), "65535");
}

#[test]
fn http_port_is_8080() {
    assert_eq!(HTTP_PORT, 8080);
}

#[test]
fn index_holds_port() {
    let assets = Assets::new(DOC_DIGEST, 4433);
    let page = assets.index_html();
    assert!(page.contains("value=\"https://localhost:4433/\""));
    assert!(!page.contains("${WEBTRANSPORT_PORT}"));
    let template = format!("{INDEX_HEAD}${{WEBTRANSPORT_PORT}}{INDEX_TAIL}");
    assert_eq!(page, template.replace("${WEBTRANSPORT_PORT}", "4433"));
    assert_eq!(assets.webtransport_port(), 4433);
}

#[test]
fn index_holds_dynamic_port() {
    for port in [1u16, 9, 443, 54321, 65535] {
        let page = Assets::new([0; 32], port).index_html();
        assert!(page.contains(&format!("https://localhost:{port}/")));
    }
}

#[test]
fn client_holds_digest_array() {
    let assets = Assets::new(DOC_DIGEST, 4433);
    let script = assets.client_js();
    let text = "[97, 98, 99, 100, 101, 102, 103, 104, 105, 106, \
                107, 108, 109, 110, 111, 112, 113, 114, 115, 116, \
                117, 118, 119, 120, 121, 122, 123, 124, 125, 126, \
                127, 64]";
    assert!(script.contains(&format!("new Uint8Array({text});")));
    assert_eq!(script, format!("{CLIENT_HEAD}{text}{CLIENT_TAIL}"));
    assert!(!script.contains("${CERT_DIGEST}"));
}

#[test]
fn client_digest_reads_back() {
    for digest in [DOC_DIGEST, [0; 32], [255; 32], [5; 32]] {
        let script = Assets::new(digest, 1).client_js();
        let start = script.find("new Uint8Array(").unwrap() + "new Uint8Array(".len();
        let end = start + script[start..].find(')').unwrap();
        let parsed = Sha256Digest::from_str_fmt(&script[start..end], Sha256DigestFmt::BytesArray)
            .unwrap();
        assert_eq!(parsed.as_ref(), &digest);
    }
}

#[test]
fn style_is_fixed() {
    let assets = Assets::new([1; 32], 2);
    assert_eq!(assets.style_css(), STYLE_DATA);
    assert!(STYLE_DATA.contains("font-family: sans-serif;"));
}

#[test]
fn routes_paths_and_types() {
    assert_eq!(
        AssetKind::all(),
        vec![AssetKind::Index, AssetKind::Style, AssetKind::Client]
    );
    assert_eq!(AssetKind::Index.path(), "/");
    assert_eq!(AssetKind::Style.path(), "/style.css");
    assert_eq!(AssetKind::Client.path(), "/client.js");
    assert_eq!(AssetKind::Index.content_type(), "text/html; charset=utf-8");
    assert_eq!(AssetKind::Style.content_type(), "text/css");
    assert_eq!(AssetKind::Client.content_type(), "application/javascript");
}

#[test]
fn body_matches_each_page() {
    let assets = Assets::new(DOC_DIGEST, 4433);
    assert_eq!(assets.body(AssetKind::Index), assets.index_html());
    assert_eq!(assets.body(AssetKind::Style), assets.style_css());
    assert_eq!(assets.body(AssetKind::Client), assets.client_js());
}
