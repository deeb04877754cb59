use license_hound::copyright::{
    merge_paragraphs, recover_copyright_notice, select_notice, strip_comment_marker, text_lines, trim,
};
use license_hound::github::{
    judge_api_response, judge_raw_response, license_api_url, raw_candidate_urls, raw_file_url,
    repo_coordinates, ApiVerdict, Encoding, LicenseDocument, RawVerdict,
};
use license_hound::license::{LicenseId, LicenseSource};
use license_hound::report::{classify_declared_license, conclude, first_link, LicenseError};
use license_hound::resolver::{
    api_finding, candidate_file_names, first_probe, local_finding, next_probe, raw_finding,
    Finding, Next, Plan, Probe,
};
use license_hound::text::{contains, same_text};

const BASE64_MIT: &str = "VGhlIE1JVCBMaWNlbnNlIChNSVQpCgpDb3B5cmlnaHQgKGMpIDIwMTMgQmVu\nIEJhbHRlcgoKUGVybWlzc2lvbiBpcyBoZXJlYnkgZ3JhbnRlZCwgZnJlZSBv\nZiBjaGFyZ2UsIHRvIGFueSBwZXJzb24gb2J0YWluaW5nIGEgY29weSBvZgp0\naGlzIHNvZnR3YXJlIGFuZCBhc3NvY2lhdGVkIGRvY3VtZW50YXRpb24gZmls\nZXMgKHRoZSAiU29mdHdhcmUiKSwgdG8gZGVhbCBpbgp0aGUgU29mdHdhcmUg\nd2l0aG91dCByZXN0cmljdGlvbiwgaW5jbHVkaW5nIHdpdGhvdXQgbGltaXRh\ndGlvbiB0aGUgcmlnaHRzIHRvCnVzZSwgY29weSwgbW9kaWZ5LCBtZXJnZSwg\ncHVibGlzaCwgZGlzdHJpYnV0ZSwgc3VibGljZW5zZSwgYW5kL29yIHNlbGwg\nY29waWVzIG9mCnRoZSBTb2Z0d2FyZSwgYW5kIHRvIHBlcm1pdCBwZXJzb25z\nIHRvIHdob20gdGhlIFNvZnR3YXJlIGlzIGZ1cm5pc2hlZCB0byBkbyBzbywK\nc3ViamVjdCB0byB0aGUgZm9sbG93aW5nIGNvbmRpdGlvbnM6CgpUaGUgYWJv\ndmUgY29weXJpZ2h0IG5vdGljZSBhbmQgdGhpcyBwZXJtaXNzaW9uIG5vdGlj\nZSBzaGFsbCBiZSBpbmNsdWRlZCBpbiBhbGwKY29waWVzIG9yIHN1YnN0YW50\naWFsIHBvcnRpb25zIG9mIHRoZSBTb2Z0d2FyZS4KClRIRSBTT0ZUV0FSRSBJ\nUyBQUk9WSURFRCAiQVMgSVMiLCBXSVRIT1VUIFdBUlJBTlRZIE9GIEFOWSBL\nSU5ELCBFWFBSRVNTIE9SCklNUExJRUQsIElOQ0xVRElORyBCVVQgTk9UIExJ\nTUlURUQgVE8gVEhFIFdBUlJBTlRJRVMgT0YgTUVSQ0hBTlRBQklMSVRZLCBG\nSVRORVNTCkZPUiBBIFBBUlRJQ1VMQVIgUFVSUE9TRSBBTkQgTk9OSU5GUklO\nR0VNRU5ULiBJTiBOTyBFVkVOVCBTSEFMTCBUSEUgQVVUSE9SUyBPUgpDT1BZ\nUklHSFQgSE9MREVSUyBCRSBMSUFCTEUgRk9SIEFOWSBDTEFJTSwgREFNQUdF\nUyBPUiBPVEhFUiBMSUFCSUxJVFksIFdIRVRIRVIKSU4gQU4gQUNUSU9OIE9G\nIENPTlRSQUNULCBUT1JUIE9SIE9USEVSV0lTRSwgQVJJU0lORyBGUk9NLCBP\nVVQgT0YgT1IgSU4KQ09OTkVDVElPTiBXSVRIIFRIRSBTT0ZUV0FSRSBPUiBU\nSEUgVVNFIE9SIE9USEVSIERFQUxJTkdTIElOIFRIRSBTT0ZUV0FSRS4K\n";

const RAW_MIT: &str = "The MIT License (MIT)\n\nCopyright (c) 2013 Ben Balter\n\nPermission is hereby granted, free of charge, to any person obtaining a copy of\nthis software and associated documentation files (the \"Software\"), to deal in\nthe Software without restriction, including without limitation the rights to\nuse, copy, modify, merge, publish, distribute, sublicense, and/or sell copies of\nthe Software, and to permit persons to whom the Software is furnished to do so,\nsubject to the following conditions:\n\nThe above copyright notice and this permission notice shall be included in all\ncopies or substantial portions of the Software.\n\nTHE SOFTWARE IS PROVIDED \"AS IS\", WITHOUT WARRANTY OF ANY KIND, EXPRESS OR\nIMPLIED, INCLUDING BUT NOT LIMITED TO THE WARRANTIES OF MERCHANTABILITY, FITNESS\nFOR A PARTICULAR PURPOSE AND NONINFRINGEMENT. IN NO EVENT SHALL THE AUTHORS OR\nCOPYRIGHT HOLDERS BE LIABLE FOR ANY CLAIM, DAMAGES OR OTHER LIABILITY, WHETHER\nIN AN ACTION OF CONTRACT, TORT OR OTHERWISE, ARISING FROM, OUT OF OR IN\nCONNECTION WITH THE SOFTWARE OR THE USE OR OTHER DEALINGS IN THE SOFTWARE.\n";

fn mit_document(spdx: &str) -> LicenseDocument {
    LicenseDocument {
        download_url: "https://raw.githubusercontent.com/benbalter/gman/master/LICENSE?lab=true".to_string(),
        content: BASE64_MIT.to_string(),
        encoding: "base64".to_string(),
        spdx_id: spdx.to_string(),
    }
}

#[test]
fn can_decode_base64() {
    assert_eq!(Ok(RAW_MIT), Encoding::Base64.decode(BASE64_MIT).as_ref().map(|x| &**x));
}

#[test]
fn base64_round_trip_of_mime_wrapped_text() {
    let inputs = [
        "",
        "a",
        "Copyright (c) 2020 X",
        "Grüße, ünïcödé — ✓",
        RAW_MIT,
    ];
    for x in inputs.iter() {
        let encoded = base64::encode_config(x.as_bytes(), base64::MIME);
        assert_eq!(Encoding::Base64.decode(&encoded), Ok(x.to_string()));
    }
}

#[test]
fn decode_rejects_bad_base64_and_bad_utf8() {
    assert_eq!(Encoding::Base64.decode("!!!!"), Err(()));
    let not_utf8 = base64::encode_config(&[0xffu8, 0xfe, 0xfd][..], base64::MIME);
    assert_eq!(Encoding::Base64.decode(&not_utf8), Err(()));
}

#[test]
fn encoding_names() {
    assert_eq!(Encoding::from_name("base64"), Some(Encoding::Base64));
    assert_eq!(Encoding::from_name("Base64"), None);
    assert_eq!(Encoding::from_name("utf-8"), None);
    assert_eq!(Encoding::from_name(""), None);
}

#[test]
fn spdx_codes() {
    assert_eq!(LicenseId::Mit.spdx_id(), "MIT");
    assert_eq!(LicenseId::Bsd3Clause.spdx_id(), "BSD-3-Clause");
    assert_eq!(LicenseId::Mpl2.spdx_id(), "MPL-2.0");
}

#[test]
fn license_suffixes() {
    assert_eq!(LicenseId::Mit.suffixes(), vec!["-MIT"]);
    assert!(LicenseId::Bsd3Clause.suffixes().is_empty());
    assert!(LicenseId::Mpl2.suffixes().is_empty());
}

#[test]
fn guess_filenames_order_for_mit() {
    let names = LicenseId::Mit.guess_filenames();
    assert_eq!(names.len(), 12);
    assert_eq!(names[0], ("LICENSE", "-MIT", ""));
    assert_eq!(names[1], ("LICENSE", "-MIT", ".txt"));
    assert_eq!(names[2], ("LICENSE", "", ""));
    assert_eq!(names[3], ("LICENSE", "", ".txt"));
    assert_eq!(names[4], ("COPYING", "-MIT", ""));
    assert_eq!(names[8], ("LICENCE", "-MIT", ""));
    assert_eq!(names[11], ("LICENCE", "", ".txt"));
}

#[test]
fn guess_filenames_without_suffixes() {
    let expected = vec![
        ("LICENSE", "", ""),
        ("LICENSE", "", ".txt"),
        ("COPYING", "", ""),
        ("COPYING", "", ".txt"),
        ("LICENCE", "", ""),
        ("LICENCE", "", ".txt"),
    ];
    assert_eq!(LicenseId::Bsd3Clause.guess_filenames(), expected);
    assert_eq!(LicenseId::Mpl2.guess_filenames(), expected);
}

#[test]
fn guess_filenames_is_restartable() {
    for id in [LicenseId::Mit, LicenseId::Bsd3Clause, LicenseId::Mpl2].iter() {
        let a = id.guess_filenames();
        let b = id.guess_filenames();
        assert!(!a.is_empty());
        assert_eq!(a, b);
        assert_eq!(a[0].0, "LICENSE");
        assert_eq!(a[0].2, "");
    }
}

#[test]
fn candidate_file_names_join_parts() {
    let names = candidate_file_names(LicenseId::Mit);
    assert_eq!(names.len(), 12);
    assert_eq!(names[0], "LICENSE-MIT");
    assert_eq!(names[1], "LICENSE-MIT.txt");
    assert_eq!(names[2], "LICENSE");
    assert_eq!(names[11], "LICENCE.txt");
}

#[test]
fn copyright_of_single_line() {
    assert_eq!(
        recover_copyright_notice("Copyright (c) 2020 X").unwrap(),
        "Copyright (c) 2020 X"
    );
}

#[test]
fn copyright_of_mit_text() {
    assert_eq!(recover_copyright_notice(RAW_MIT).unwrap(), "Copyright (c) 2013 Ben Balter");
}

#[test]
fn copyright_of_short_mit_header() {
    let text = "The MIT License (MIT)\n\nCopyright (c) 2013 Ben Balter\n\n...";
    assert_eq!(recover_copyright_notice(text).unwrap(), "Copyright (c) 2013 Ben Balter");
}

#[test]
fn copyright_missing_is_an_error() {
    let text = "Permission is hereby granted.\n\nNo warranty.\n";
    match recover_copyright_notice(text) {
        Err(LicenseError::UnableToRecoverAttribution(t)) => assert_eq!(t, text),
        other => panic!("unexpected {:?}", other),
    }
    match recover_copyright_notice("") {
        Err(LicenseError::UnableToRecoverAttribution(t)) => assert_eq!(t, ""),
        other => panic!("unexpected {:?}", other),
    }
}

#[test]
fn copyright_merges_wrapped_lines_and_strips_comments() {
    let text = "// Copyright (c) 2020\n//   Jane Doe\n\n// Copyright 2021 Other";
    assert_eq!(recover_copyright_notice(text).unwrap(), "Copyright (c) 2020 Jane Doe");
}

#[test]
fn copyright_is_case_insensitive_and_first_wins() {
    let text = "Intro line\n\n  COPYRIGHT 1999 Someone  \n\ncopyright 2000 Later";
    assert_eq!(recover_copyright_notice(text).unwrap(), "COPYRIGHT 1999 Someone");
}

#[test]
fn merge_paragraphs_joins_and_splits() {
    let lines: Vec<String> = vec!["a", "b", "", "c", "", "", "d"].into_iter().map(String::from).collect();
    let merged = merge_paragraphs(&lines);
    assert_eq!(merged, vec!["a b", "c", "", "d"]);
    assert!(merge_paragraphs(&Vec::new()).is_empty());
    let leading: Vec<String> = vec!["", "x", "y"].into_iter().map(String::from).collect();
    assert_eq!(merge_paragraphs(&leading), vec!["x y"]);
}

#[test]
fn select_notice_uses_lowered_forms() {
    let paras: Vec<String> = vec!["One", "Two", "Three"].into_iter().map(String::from).collect();
    let lowered: Vec<String> = vec!["one", "copyright two", "copyright three"].into_iter().map(String::from).collect();
    assert_eq!(select_notice(&paras, &lowered), Some("Two".to_string()));
    let none: Vec<String> = vec!["one", "two", "three"].into_iter().map(String::from).collect();
    assert_eq!(select_notice(&paras, &none), None);
}

#[test]
fn comment_marker_is_stripped_once() {
    assert_eq!(strip_comment_marker("// x"), " x");
    assert_eq!(strip_comment_marker("////x"), "//x");
    assert_eq!(strip_comment_marker("/ x"), "/ x");
    assert_eq!(strip_comment_marker(""), "");
}

#[test]
fn substring_search() {
    assert!(contains("MIT OR Apache-2.0", "MIT"));
    assert!(contains("abc", ""));
    assert!(!contains("", "a"));
    assert!(!contains("MI", "MIT"));
    assert!(contains("xxcopyright", "copyright"));
    assert!(same_text("MIT", "MIT"));
    assert!(!same_text("MIT", "mit"));
    assert!(!same_text("MIT", "MIT "));
}

#[test]
fn classify_compound_expression_takes_first_match() {
    assert_eq!(classify_declared_license("MIT OR Apache-2.0"), Ok(LicenseId::Mit));
    assert_eq!(classify_declared_license("MPL-2.0 OR MIT"), Ok(LicenseId::Mit));
    assert_eq!(classify_declared_license("MPL-2.0"), Ok(LicenseId::Mpl2));
    assert_eq!(classify_declared_license("BSD-3-Clause"), Ok(LicenseId::Bsd3Clause));
    assert_eq!(classify_declared_license("BSD-3-Clause OR MPL-2.0"), Ok(LicenseId::Mpl2));
}

#[test]
fn classify_rejects_other_licenses() {
    assert_eq!(
        classify_declared_license("Apache-2.0"),
        Err(LicenseError::UnacceptableLicense("Apache-2.0".to_string()))
    );
    assert_eq!(
        classify_declared_license("mit"),
        Err(LicenseError::UnacceptableLicense("mit".to_string()))
    );
}

#[test]
fn api_answer_agreeing_with_chosen_license() {
    match judge_api_response(200, Some(mit_document("MIT")), LicenseId::Mit) {
        ApiVerdict::Found(LicenseSource::GitHubApi { url }, text) => {
            assert_eq!(url, "https://raw.githubusercontent.com/benbalter/gman/master/LICENSE?lab=true");
            assert_eq!(text, RAW_MIT);
        }
        other => panic!("unexpected {:?}", other),
    }
}

#[test]
fn api_answer_disagreeing_with_chosen_license() {
    match judge_api_response(200, Some(mit_document("MIT")), LicenseId::Bsd3Clause) {
        ApiVerdict::Mismatch { reported, chosen } => {
            assert_eq!(reported, "MIT");
            assert_eq!(chosen, LicenseId::Bsd3Clause);
        }
        other => panic!("unexpected {:?}", other),
    }
    assert!(matches!(api_finding(judge_api_response(200, Some(mit_document("MIT")), LicenseId::Bsd3Clause)), Finding::Miss));
}

#[test]
fn api_answer_statuses() {
    assert!(matches!(judge_api_response(403, Some(mit_document("MIT")), LicenseId::Mit), ApiVerdict::Forbidden));
    assert!(matches!(judge_api_response(404, None, LicenseId::Mit), ApiVerdict::Absent));
    assert!(matches!(judge_api_response(500, None, LicenseId::Mit), ApiVerdict::UnexpectedStatus(500)));
    assert!(matches!(judge_api_response(301, None, LicenseId::Mit), ApiVerdict::UnexpectedStatus(301)));
    assert!(matches!(judge_api_response(200, None, LicenseId::Mit), ApiVerdict::Malformed));
}

#[test]
fn api_answer_with_bad_content() {
    let mut doc = mit_document("MIT");
    doc.encoding = "utf-8".to_string();
    assert!(matches!(judge_api_response(200, Some(doc), LicenseId::Mit), ApiVerdict::Undecodable));
    let mut doc = mit_document("MIT");
    doc.content = "%%%".to_string();
    assert!(matches!(judge_api_response(200, Some(doc), LicenseId::Mit), ApiVerdict::Undecodable));
}

#[test]
fn raw_answers() {
    assert!(matches!(judge_raw_response(200, Some("text".to_string())), RawVerdict::Found(t) if t == "text"));
    assert!(matches!(judge_raw_response(200, None), RawVerdict::Miss));
    assert!(matches!(judge_raw_response(403, Some("x".to_string())), RawVerdict::Forbidden));
    assert!(matches!(judge_raw_response(404, None), RawVerdict::Miss));
}

#[test]
fn hosted_urls() {
    assert_eq!(
        license_api_url("maghoff", "cargo-license-hound"),
        "https://api.github.com/repos/maghoff/cargo-license-hound/license"
    );
    assert_eq!(
        raw_file_url("alexcrichton", "futures-rs", "LICENSE", "-MIT", ".txt"),
        "https://raw.githubusercontent.com/alexcrichton/futures-rs/master/LICENSE-MIT.txt"
    );
    let urls = raw_candidate_urls("o", "r", LicenseId::Bsd3Clause);
    assert_eq!(urls.len(), 6);
    assert_eq!(urls[0], "https://raw.githubusercontent.com/o/r/master/LICENSE");
    assert_eq!(urls[5], "https://raw.githubusercontent.com/o/r/master/LICENCE.txt");
}

#[test]
fn repository_urls() {
    let pair = |o: &str, r: &str| Some((o.to_string(), r.to_string()));
    assert_eq!(repo_coordinates("https://github.com/maghoff/cargo-license-hound"), pair("maghoff", "cargo-license-hound"));
    assert_eq!(repo_coordinates("https://github.com/serde-rs/serde.git"), pair("serde-rs", "serde"));
    assert_eq!(repo_coordinates("https://github.com/rust-lang/regex/"), pair("rust-lang", "regex"));
    assert_eq!(repo_coordinates("https://gitlab.com/a/b"), None);
    assert_eq!(repo_coordinates("https://github.com/a/b/tree/master"), None);
    assert_eq!(repo_coordinates("http://github.com/a/b"), None);
}

fn drive(plan: Plan, mut outcome: impl FnMut(Probe) -> Finding) -> (Vec<Probe>, Option<(LicenseSource, String)>) {
    let mut tried = Vec::new();
    let mut next = first_probe(plan);
    loop {
        match next {
            Next::Try(p) => {
                tried.push(p);
                let f = outcome(p);
                next = next_probe(plan, p, f);
            }
            Next::Done(r) => return (tried, r),
        }
    }
}

#[test]
fn local_file_wins_over_hosted_sources() {
    let plan = Plan { local_candidates: 3, hosted: true, raw_candidates: 3 };
    let (tried, found) = drive(plan, |p| match p {
        Probe::Local(1) => local_finding("LICENSE".to_string(), Some("local".to_string())),
        Probe::Local(_) => local_finding("x".to_string(), None),
        _ => Finding::Hit(LicenseSource::GitHubApi { url: "u".to_string() }, "remote".to_string()),
    });
    assert_eq!(tried, vec![Probe::Local(0), Probe::Local(1)]);
    assert_eq!(found, Some((LicenseSource::Crate("LICENSE".to_string()), "local".to_string())));
}

#[test]
fn chain_falls_back_in_order() {
    let plan = Plan { local_candidates: 2, hosted: true, raw_candidates: 3 };
    let (tried, found) = drive(plan, |p| match p {
        Probe::HostedRaw(1) => raw_finding("raw1".to_string(), RawVerdict::Found("t".to_string())),
        Probe::HostedApi => api_finding(ApiVerdict::Forbidden),
        _ => Finding::Miss,
    });
    assert_eq!(tried, vec![Probe::Local(0), Probe::Local(1), Probe::HostedApi, Probe::HostedRaw(0), Probe::HostedRaw(1)]);
    assert_eq!(found, Some((LicenseSource::GitHubRepo { url: "raw1".to_string() }, "t".to_string())));
}

#[test]
fn chain_without_repository_stays_local() {
    let plan = Plan { local_candidates: 2, hosted: false, raw_candidates: 0 };
    let (tried, found) = drive(plan, |_| Finding::Miss);
    assert_eq!(tried, vec![Probe::Local(0), Probe::Local(1)]);
    assert_eq!(found, None);
}

#[test]
fn raw_refusal_ends_the_chain() {
    let plan = Plan { local_candidates: 1, hosted: true, raw_candidates: 4 };
    let (tried, found) = drive(plan, |p| match p {
        Probe::HostedRaw(0) => raw_finding("u".to_string(), RawVerdict::Forbidden),
        _ => Finding::Miss,
    });
    assert_eq!(tried, vec![Probe::Local(0), Probe::HostedApi, Probe::HostedRaw(0)]);
    assert_eq!(found, None);
}

#[test]
fn conclusions() {
    match conclude(LicenseId::Mit, "MIT".to_string(), None, "/src/pkg".to_string(), None) {
        Err(LicenseError::UnableToRecoverLicenseFile(p)) => assert_eq!(p, "/src/pkg"),
        other => panic!("unexpected {:?}", other),
    }
    let found = Some((LicenseSource::Crate("LICENSE".to_string()), RAW_MIT.to_string()));
    let d = conclude(LicenseId::Mit, "MIT OR Apache-2.0".to_string(), found, "/d".to_string(), Some("https://h".to_string())).unwrap();
    assert_eq!(d.chosen_license, LicenseId::Mit);
    assert_eq!(d.copyright_notice, "Copyright (c) 2013 Ben Balter");
    assert_eq!(d.full_spdx_license, "MIT OR Apache-2.0");
    assert_eq!(d.full_license_document, RAW_MIT);
    assert_eq!(d.license_source, LicenseSource::Crate("LICENSE".to_string()));
    assert_eq!(d.link, Some("https://h".to_string()));
    let bare = Some((LicenseSource::Crate("LICENSE".to_string()), "no notice".to_string()));
    assert_eq!(
        conclude(LicenseId::Mit, "MIT".to_string(), bare, "/d".to_string(), None).err(),
        Some(LicenseError::UnableToRecoverAttribution("no notice".to_string()))
    );
}

#[test]
fn links_in_priority_order() {
    let s = |x: &str| Some(x.to_string());
    assert_eq!(first_link(s("h"), s("r"), s("d")), s("h"));
    assert_eq!(first_link(None, s("r"), s("d")), s("r"));
    assert_eq!(first_link(None, None, s("d")), s("d"));
    assert_eq!(first_link(None, None, None), None);
}

#[test]
fn lines_split_like_std() {
    for text in ["", "\n", "a", "a\n", "a\r\nb\n", "a\n\nb", "\r\n\r\nx\r\n", "x\ry\nz", RAW_MIT].iter() {
        let expected: Vec<String> = text.lines().map(String::from).collect();
        assert_eq!(text_lines(text), expected, "{:?}", text);
    }
    assert_eq!(text_lines("a\r\nb"), vec!["a", "b"]);
    assert_eq!(text_lines("\n"), vec![""]);
}

#[test]
fn trim_like_std() {
    for text in ["", "   ", " a ", "\t\u{3000}x y\u{a0}\r", "abc", "\n\nz"].iter() {
        assert_eq!(trim(text), text.trim(), "{:?}", text);
    }
}
