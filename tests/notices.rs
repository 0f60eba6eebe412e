use sbom::descriptor::{DependencyInfo, Descriptor, ProductName};
use sbom::license::{accept_response, LicenseInfo, LicenseSource};
use sbom::outputs::{OutputSbom, Outputs, NOTICES_HEADER};
use sbom::paths::{notices_path, resolve_file};
use sbom::walker::{Action, Walker};

fn s(x: &str) -> String {
    x.to_string()
}

fn product(links: &[&str]) -> Descriptor {
    Descriptor {
        product: Some(ProductName { name: s("Product") }),
        dependency: None,
        links: Some(
            links
                .iter()
                .enumerate()
                .map(|(i, l)| (format!("link{}", i), s(l)))
                .collect(),
        ),
    }
}

fn dependency(name: &str, homepage: &str, license: LicenseInfo, addons: Option<Vec<LicenseInfo>>) -> Descriptor {
    Descriptor {
        product: None,
        dependency: Some(DependencyInfo {
            name: s(name),
            homepage: s(homepage),
            license,
            addons,
            spdx: s("MIT"),
        }),
        links: None,
    }
}

fn text(t: &str) -> LicenseInfo {
    LicenseInfo::Text(s(t))
}

fn dashes() -> String {
    "-".repeat(100)
}

fn block(name: &str, homepage: &str, texts: &[&str]) -> String {
    let mut out = format!("{}\n - URL: {}\n\n", name, homepage);
    for t in texts {
        out.push_str(t);
        out.push_str("\n\n");
    }
    out.push_str(&dashes());
    out.push_str("\n\n");
    out
}

/// Runs a walk from `root`, answering each request from the given tables.
fn run(
    root: &str,
    files: &dyn Fn(&str) -> Option<Descriptor>,
    license_files: &[(&str, &str)],
    responses: &[(&str, u16, &str)],
) -> Result<Option<String>, String> {
    let mut w = Walker::new(s(root));
    loop {
        match w.next_action() {
            Action::Load(p) => {
                let d = files(&p).ok_or(format!("no descriptor {}", p))?;
                w.on_descriptor(&d).map_err(|e| format!("malformed {}", e.path))?;
            }
            Action::ReadFile(p) => {
                let t = license_files
                    .iter()
                    .find(|(k, _)| *k == p)
                    .ok_or(format!("no file {}", p))?
                    .1;
                w.on_license_text(s(t));
            }
            Action::Fetch(u) => {
                let (_, status, body) = responses
                    .iter()
                    .find(|(k, _, _)| *k == u)
                    .ok_or(format!("no url {}", u))?;
                w.on_response(*status, s(body))
                    .map_err(|e| format!("status {} from {}", e.status, e.url))?;
            }
            Action::Finished => break,
        }
    }
    Ok(w.outputs().notices())
}

#[test]
fn resolve_file_is_relative_to_descriptor_dir() {
    assert_eq!(resolve_file(&s("a/b/desc.toml"), &s("LICENSE")), "a/b/LICENSE");
}

#[test]
fn resolve_file_at_top_level() {
    assert_eq!(resolve_file(&s("desc.toml"), &s("LICENSE")), "LICENSE");
    assert_eq!(resolve_file(&s("x/desc.toml"), &s("../y/d.toml")), "x/../y/d.toml");
}

#[test]
fn notices_path_in_generated_dir() {
    assert_eq!(notices_path(&s("dir/root.toml")), Some(s("dir/generated/root.NOTICES.txt")));
    assert_eq!(notices_path(&s("root.toml")), Some(s("generated/root.NOTICES.txt")));
}

#[test]
fn notices_path_without_file_name() {
    assert_eq!(notices_path(&s("dir/..")), None);
}

#[test]
fn license_resolve_each_kind() {
    let base = s("a/b/desc.toml");
    assert!(matches!(text("MIT body").resolve(&base), LicenseSource::Ready(t) if t == "MIT body"));
    assert!(matches!(LicenseInfo::File(s("LICENSE")).resolve(&base), LicenseSource::ReadFile(p) if p == "a/b/LICENSE"));
    assert!(matches!(LicenseInfo::URL(s("https://x/l")).resolve(&base), LicenseSource::Fetch(u) if u == "https://x/l"));
}

#[test]
fn accept_response_success_and_failure() {
    let url = s("https://example.com/LICENSE");
    assert_eq!(accept_response(&url, 200, s("body")).ok(), Some(s("body")));
    assert_eq!(accept_response(&url, 299, s("b")).ok(), Some(s("b")));
    let e = accept_response(&url, 404, s("missing")).err().unwrap();
    assert_eq!(e.url, url);
    assert_eq!(e.status, 404);
    assert!(accept_response(&url, 301, s("")).is_err());
    assert!(accept_response(&url, 199, s("")).is_err());
}

#[test]
fn render_entry_exact() {
    let e = OutputSbom {
        name: s("dep"),
        homepage: s("https://dep.example"),
        licenses: vec![s("MIT License body"), s("extra")],
    };
    let expected = format!("dep\n - URL: https://dep.example\n\nMIT License body\n\nextra\n\n{}\n\n", dashes());
    assert_eq!(e.render(), expected);
}

#[test]
fn render_entry_without_licenses() {
    let e = OutputSbom { name: s("n"), homepage: s("h"), licenses: vec![] };
    assert_eq!(e.render(), format!("n\n - URL: h\n\n{}\n\n", dashes()));
}

#[test]
fn merge_distinct_and_repeated_names() {
    let mut o = Outputs::new();
    assert!(o.is_empty());
    assert_eq!(o.notices(), None);
    o.merge(s("a"), s("ha"), vec![s("A1")]);
    o.merge(s("b"), s("hb"), vec![s("B1")]);
    o.merge(s("a"), s("ha2"), vec![s("A2"), s("A3")]);
    assert_eq!(o.len(), 2);
    assert_eq!(o.get(0).name, "a");
    assert_eq!(o.get(0).homepage, "ha2");
    assert_eq!(o.get(0).licenses, vec![s("A1"), s("A2"), s("A3")]);
    assert_eq!(o.get(1).licenses, vec![s("B1")]);
    let expected = format!("{}{}{}", NOTICES_HEADER, block("a", "ha2", &["A1", "A2", "A3"]), block("b", "hb", &["B1"]));
    assert_eq!(o.report(), expected);
    assert_eq!(o.notices(), Some(expected));
}

#[test]
fn header_is_verbatim() {
    assert_eq!(
        NOTICES_HEADER,
        "\nThis file includes a list of third-party open source licenses used in this Twilio product.\n\n"
    );
}

#[test]
fn root_without_links_or_dependency_writes_nothing() {
    let files = |p: &str| if p == "r/root.toml" { Some(product(&[])) } else { None };
    assert_eq!(run("r/root.toml", &files, &[], &[]), Ok(None));
    let files = |p: &str| {
        if p == "r/root.toml" {
            Some(Descriptor { product: Some(ProductName { name: s("P") }), dependency: None, links: None })
        } else {
            None
        }
    };
    assert_eq!(run("r/root.toml", &files, &[], &[]), Ok(None));
}

#[test]
fn single_dependency_with_inline_text() {
    let files = |p: &str| {
        if p == "d.toml" {
            Some(dependency("dep", "https://dep", text("MIT License body"), None))
        } else {
            None
        }
    };
    let out = run("d.toml", &files, &[], &[]).unwrap().unwrap();
    assert_eq!(out, format!("{}{}", NOTICES_HEADER, block("dep", "https://dep", &["MIT License body"])));
    let start = out.find(" - URL: https://dep\n\n").unwrap() + " - URL: https://dep\n\n".len();
    let end = out.find(&dashes()).unwrap();
    assert_eq!(&out[start..end], "MIT License body\n\n");
}

#[test]
fn product_with_two_dependencies_in_link_order() {
    let files = |p: &str| match p {
        "top/root.toml" => Some(product(&["deps/zeta.toml", "deps/alpha.toml"])),
        "top/deps/zeta.toml" => Some(dependency("zeta", "https://zeta", text("Z"), None)),
        "top/deps/alpha.toml" => Some(dependency("alpha", "https://alpha", text("A"), None)),
        _ => None,
    };
    let out = run("top/root.toml", &files, &[], &[]).unwrap().unwrap();
    assert_eq!(
        out,
        format!("{}{}{}", NOTICES_HEADER, block("zeta", "https://zeta", &["Z"]), block("alpha", "https://alpha", &["A"]))
    );
}

#[test]
fn same_dependency_through_two_products_appends() {
    let files = |p: &str| match p {
        "root.toml" => Some(product(&["first/prod.toml", "second/prod.toml"])),
        "first/prod.toml" => Some(product(&["dep.toml"])),
        "second/prod.toml" => Some(product(&["dep.toml"])),
        "first/dep.toml" => Some(dependency("shared", "https://one", text("T1"), None)),
        "second/dep.toml" => Some(dependency("shared", "https://two", text("T2"), None)),
        _ => None,
    };
    let out = run("root.toml", &files, &[], &[]).unwrap().unwrap();
    assert_eq!(out, format!("{}{}", NOTICES_HEADER, block("shared", "https://two", &["T1", "T2"])));
}

#[test]
fn license_file_relative_to_referencing_descriptor() {
    let files = |p: &str| match p {
        "root.toml" => Some(product(&["a/b/desc.toml"])),
        "a/b/desc.toml" => Some(dependency("d", "h", LicenseInfo::File(s("LICENSE")), None)),
        _ => None,
    };
    let mut w = Walker::new(s("root.toml"));
    assert!(matches!(w.next_action(), Action::Load(p) if p == "root.toml"));
    w.on_descriptor(&files("root.toml").unwrap()).unwrap();
    assert!(matches!(w.next_action(), Action::Load(p) if p == "a/b/desc.toml"));
    w.on_descriptor(&files("a/b/desc.toml").unwrap()).unwrap();
    assert!(matches!(w.next_action(), Action::ReadFile(p) if p == "a/b/LICENSE"));
    let out = run("root.toml", &files, &[("a/b/LICENSE", "file text")], &[]).unwrap().unwrap();
    assert_eq!(out, format!("{}{}", NOTICES_HEADER, block("d", "h", &["file text"])));
}

#[test]
fn url_not_found_aborts_without_output() {
    let files = |p: &str| match p {
        "root.toml" => Some(dependency("d", "h", LicenseInfo::URL(s("https://x/LICENSE")), None)),
        _ => None,
    };
    assert_eq!(
        run("root.toml", &files, &[], &[("https://x/LICENSE", 404, "not found")]),
        Err(s("status 404 from https://x/LICENSE"))
    );
    let mut w = Walker::new(s("root.toml"));
    w.on_descriptor(&files("root.toml").unwrap()).unwrap();
    assert!(w.on_response(404, s("not found")).is_err());
    assert!(w.outputs().is_empty());
    assert_eq!(w.outputs().notices(), None);
}

#[test]
fn url_success_uses_body() {
    let files = |p: &str| match p {
        "root.toml" => Some(dependency("d", "h", LicenseInfo::URL(s("https://x/L")), None)),
        _ => None,
    };
    let out = run("root.toml", &files, &[], &[("https://x/L", 200, "remote text")]).unwrap().unwrap();
    assert_eq!(out, format!("{}{}", NOTICES_HEADER, block("d", "h", &["remote text"])));
}

#[test]
fn addons_follow_license_in_order() {
    let files = |p: &str| match p {
        "x/root.toml" => Some(dependency(
            "d",
            "h",
            text("main"),
            Some(vec![LicenseInfo::File(s("NOTICE")), text("inline addon"), LicenseInfo::URL(s("https://u"))]),
        )),
        _ => None,
    };
    let out = run("x/root.toml", &files, &[("x/NOTICE", "notice text")], &[("https://u", 200, "web")]).unwrap().unwrap();
    assert_eq!(out, format!("{}{}", NOTICES_HEADER, block("d", "h", &["main", "notice text", "inline addon", "web"])));
}

#[test]
fn malformed_descriptor_names_path() {
    let files = |p: &str| match p {
        "root.toml" => Some(product(&["sub/bad.toml"])),
        "sub/bad.toml" => Some(Descriptor { product: None, dependency: None, links: None }),
        _ => None,
    };
    assert_eq!(run("root.toml", &files, &[], &[]), Err(s("malformed sub/bad.toml")));
}

#[test]
fn product_takes_precedence_over_dependency() {
    let files = |p: &str| match p {
        "root.toml" => {
            let mut d = product(&["d.toml"]);
            d.dependency = dependency("ignored", "h", text("t"), None).dependency;
            Some(d)
        }
        "d.toml" => Some(dependency("real", "h", text("t"), None)),
        _ => None,
    };
    let out = run("root.toml", &files, &[], &[]).unwrap().unwrap();
    assert_eq!(out, format!("{}{}", NOTICES_HEADER, block("real", "h", &["t"])));
}

#[test]
fn running_twice_gives_identical_output() {
    let files = |p: &str| match p {
        "root.toml" => Some(product(&["a.toml", "b.toml", "a.toml"])),
        "a.toml" => Some(dependency("a", "ha", LicenseInfo::File(s("LA")), None)),
        "b.toml" => Some(dependency("b", "hb", LicenseInfo::URL(s("https://b")), None)),
        _ => None,
    };
    let first = run("root.toml", &files, &[("LA", "la")], &[("https://b", 200, "lb")]);
    let second = run("root.toml", &files, &[("LA", "la")], &[("https://b", 200, "lb")]);
    assert!(first.as_ref().unwrap().is_some());
    assert_eq!(first, second);
}
