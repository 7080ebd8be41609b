use deno_loader::paths::resolve_absolute_path;
use deno_loader::paths::resolve_entrypoint;
use deno_loader::paths::resolve_provided_referrer;
use deno_loader::paths::EntrypointRequest;
use deno_loader::resolve::ResolutionMode;
use deno_loader::text::decimal_text;
use deno_loader::text::starts_with;
use deno_loader::text::trim_end;

fn referrer(text: &str) -> Result<Option<String>, String> {
    resolve_provided_referrer(Some(text.to_string()))
}

#[test]
fn empty_referrer_is_none() {
    assert_eq!(resolve_provided_referrer(None), Ok(None));
    assert_eq!(referrer(""), Ok(None));
}

#[test]
fn url_referrers_are_parsed() {
    assert_eq!(
        referrer("https://DENO.land/a/../b"),
        Ok(Some("https://deno.land/b".to_string()))
    );
    assert_eq!(referrer("http://a"), Ok(Some("http://a/".to_string())));
    assert_eq!(referrer("file:///a b"), Ok(Some("file:///a%20b".to_string())));
    assert_eq!(referrer("http:"), Err("empty host".to_string()));
}

#[test]
fn other_referrers_are_paths() {
    assert_eq!(referrer("/dir/main.ts"), Ok(Some("file:///dir/main.ts".to_string())));
    assert_eq!(referrer("/dir/./a/../b.ts"), Ok(Some("file:///dir/b.ts".to_string())));
    assert_eq!(
        referrer("main.ts"),
        Err("Could not convert path to URL.\n  Path: main.ts".to_string())
    );
    assert!(referrer("npm:chalk").is_err());
    assert!(referrer("HTTPS://deno.land/x").is_err());
}

#[test]
fn absolute_paths() {
    assert_eq!(resolve_absolute_path("a.ts", "/work"), Ok("/work/a.ts".to_string()));
    assert_eq!(resolve_absolute_path("/a.ts", "/work"), Ok("/a.ts".to_string()));
    assert_eq!(resolve_absolute_path("file:///a%41.ts", "/work"), Ok("/aA.ts".to_string()));
    assert_eq!(
        resolve_absolute_path("file://host/a.ts", "/work"),
        Ok("/work/file://host/a.ts".to_string())
    );
}

#[test]
fn backslashes_make_an_entrypoint_a_path() {
    match resolve_entrypoint("dir\\main.ts", "/work", ResolutionMode::Import) {
        Ok(EntrypointRequest::Located(url)) => assert_eq!(url, "file:///work/dir%5Cmain.ts"),
        _ => panic!("a path has a URL"),
    }
    match resolve_entrypoint("dir\\main.ts", "relative", ResolutionMode::Import) {
        Err(message) => {
            assert_eq!(
                message,
                "Could not convert path to URL.\n  Path: relative/dir\\main.ts"
            )
        }
        Ok(_) => panic!("a relative path has no URL"),
    }
}

#[test]
fn other_entrypoints_are_for_the_resolver() {
    match resolve_entrypoint("./main.ts", "/work", ResolutionMode::Require) {
        Ok(EntrypointRequest::Ask(request)) => {
            assert_eq!(request.specifier, "./main.ts");
            assert_eq!(request.referrer, "file:///work/");
            assert_eq!(request.mode, ResolutionMode::Require);
        }
        _ => panic!("the resolver is asked"),
    }
    match resolve_entrypoint("./main.ts", "work", ResolutionMode::Import) {
        Err(message) => {
            assert_eq!(message, "Could not convert path to URL.\n  Path: work")
        }
        Ok(_) => panic!("a relative directory has no URL"),
    }
}

#[test]
fn text_helpers() {
    assert_eq!(decimal_text(0), "0");
    assert_eq!(decimal_text(9), "9");
    assert_eq!(decimal_text(10), "10");
    assert_eq!(decimal_text(42), "42");
    assert_eq!(decimal_text(100), "100");
    assert_eq!(decimal_text(255), "255");
    assert!(starts_with("\u{e9}t\u{e9}", "\u{e9}t"));
    assert!(!starts_with("ab", "abc"));
    assert!(starts_with("ab", ""));
    assert_eq!(trim_end("a b \u{85}\u{3000}\n"), "a b");
    assert_eq!(trim_end(" \t"), "");
    assert_eq!(trim_end(" a\u{200b}"), " a\u{200b}");
}

#[test]
fn white_space_is_that_of_std() {
    for n in 0..0x11_0000u32 {
        if let Some(c) = char::from_u32(n) {
            let text = format!("a{}", c);
            assert_eq!(trim_end(&text), text.trim_end());
        }
    }
}
