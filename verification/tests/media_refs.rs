use guillotine::error::Error;
use guillotine::icon::{calculate_hash, draw_identicon, palette_color};
use guillotine::media::{dw_media, parse_reference, CacheFile, FetchStep};
use std::collections::hash_map::DefaultHasher;
use std::hash::{Hash, Hasher};

#[test]
fn reference_is_split_into_server_and_media() {
    let m = match parse_reference("mxc://example.org/AbCdEf") {
        Ok(m) => m,
        Err(e) => panic!("no reference: {:?}", e),
    };
    assert_eq!(m.server, "example.org");
    assert_eq!(m.media, "AbCdEf");
}

#[test]
fn reference_is_found_after_other_text() {
    let m = match parse_reference("see mxc:///x and mxc://a/b/c\nrest") {
        Ok(m) => m,
        Err(e) => panic!("no reference: {:?}", e),
    };
    assert_eq!(m.server, "a");
    assert_eq!(m.media, "b/c");
}

#[test]
fn malformed_references_are_refused() {
    for text in ["", "mxc://", "mxc://server", "mxc://server/", "mxc:///id", "http://a/b", "mxc:/a/b"] {
        assert!(matches!(parse_reference(text), Err(Error::MediaReferenceInvalid)), "{}", text);
    }
}

#[test]
fn thumbnail_is_asked_for_with_its_size() {
    let f = match dw_media("https://example.org", "mxc://media.example.org/abc", true, None, 64, 48) {
        Ok(f) => f,
        Err(e) => panic!("no fetch: {:?}", e),
    };
    assert_eq!(
        f.url,
        "https://example.org/_matrix/media/r0/thumbnail/media.example.org/abc?width=64&height=48&method=scale"
    );
    assert!(matches!(f.file, CacheFile::Cached(ref name) if name == "abc"));
}

#[test]
fn whole_media_is_downloaded_to_destination() {
    let f = match dw_media("https://example.org", "mxc://media.example.org/abc", false, Some("/tmp/"), 0, 0) {
        Ok(f) => f,
        Err(e) => panic!("no fetch: {:?}", e),
    };
    assert_eq!(f.url, "https://example.org/_matrix/media/r0/download/media.example.org/abc");
    assert!(matches!(f.file, CacheFile::Path(ref path) if path == "/tmp/abc"));
}

#[test]
fn resolving_twice_plans_the_same_file() {
    let a = dw_media("https://example.org", "mxc://s/id", true, None, 64, 64);
    let b = dw_media("https://example.org", "mxc://s/id", true, None, 64, 64);
    match (a, b) {
        (Ok(a), Ok(b)) => {
            assert_eq!(a.url, b.url);
            assert!(matches!((a.file, b.file), (CacheFile::Cached(x), CacheFile::Cached(y)) if x == y));
        },
        _ => panic!("no fetch"),
    }
}

#[test]
fn file_that_is_there_is_not_downloaded_again() {
    let f = match dw_media("https://example.org", "mxc://s/id", true, None, 64, 64) {
        Ok(f) => f,
        Err(e) => panic!("no fetch: {:?}", e),
    };
    assert_eq!(f.step(false), FetchStep::Download);
    assert_eq!(f.step(true), FetchStep::Reuse);
}

#[test]
fn media_errors_tell_reference_from_url() {
    assert!(matches!(
        dw_media("https://example.org", "not a reference", true, None, 64, 64),
        Err(Error::MediaReferenceInvalid)
    ));
    assert!(matches!(
        dw_media("not a url", "mxc://s/id", true, None, 64, 64),
        Err(Error::BackendError)
    ));
}

#[test]
fn hash_is_that_of_a_string() {
    for text in ["", "a", "!room:example.org", "käse"] {
        let mut state = DefaultHasher::new();
        text.hash(&mut state);
        assert_eq!(calculate_hash(text), state.finish());
    }
}

#[test]
fn identicon_depends_on_seed_and_label_alone() {
    let a = draw_identicon("!room:example.org", "#lobby");
    let b = draw_identicon("!room:example.org", "#lobby");
    assert_eq!(a.name, b.name);
    assert_eq!(a.color, b.color);
    assert_eq!(a.glyph, b.glyph);
    assert_eq!(a.name, "!room:example.org");
    assert_eq!(a.color, palette_color((calculate_hash("!room:example.org") % 9) as usize));
}

#[test]
fn identicon_letter_is_first_visible_character() {
    assert_eq!(draw_identicon("s", "#lobby").glyph, "L");
    assert_eq!(draw_identicon("s", "alice").glyph, "A");
    assert_eq!(draw_identicon("s", "Bob").glyph, "B");
    assert_eq!(draw_identicon("s", "").glyph, "X");
    assert_eq!(draw_identicon("s", "#").glyph, "X");
    assert_eq!(draw_identicon("s", "ärger").glyph, "Ä");
}

#[test]
fn fifty_seeds_give_several_colors() {
    let mut seen = Vec::new();
    for i in 0..50 {
        let icon = draw_identicon(&format!("!room{}:example.org", i), "x");
        if !seen.contains(&icon.color) {
            seen.push(icon.color);
        }
    }
    assert!(seen.len() >= 3);
}

#[test]
fn palette_has_nine_entries() {
    let first = palette_color(0);
    assert_eq!((first.r, first.g, first.b), (69, 189, 243));
    let last = palette_color(8);
    assert_eq!((last.r, last.g, last.b), (241, 185, 29));
    for i in 0..9 {
        for j in 0..i {
            assert_ne!(palette_color(i), palette_color(j));
        }
    }
}
