use alfred_rs::error::UpdaterError;
use alfred_rs::names::{download_file_name, sanitize_name, updater_state_file_name};
use alfred_rs::releaser::{GithubReleaser, ReleaseAsset, ReleaseItem, Releaser};
use alfred_rs::state::{default_interval, UpdateInfo, UpdaterState, UPDATE_INTERVAL};
use alfred_rs::version::{parse_semver_required, SemVer};

#[test]
fn it_tests_settings_filename() {
    let name = updater_state_file_name(
        "workflow.B0AC54EC-601C",
        "YouForgotTo/フ:Name好YouráOwnسWork}flowッ",
    );
    assert_eq!(
        "workflow.B0AC54EC-601C-YouForgotTo___Name_Your_Own_Work_flow_-updater.json",
        name
    );
}

#[test]
fn sanitizes_every_non_alphanumeric_character() {
    assert_eq!("My_Work_flow", sanitize_name("My/Work:flow"));
    assert_eq!("", sanitize_name(""));
    assert_eq!("____", sanitize_name("/:.ッ"));
    assert_eq!("abcXYZ019", sanitize_name("abcXYZ019"));
}

#[test]
fn download_names_use_the_sanitized_name() {
    assert_eq!(
        "latest_release_My_Work_flow.alfredworkflow",
        download_file_name("My/Work:flow")
    );
}

#[test]
fn semver_order_is_lexicographic_on_the_triple() {
    let v = |a, b, c| SemVer::new(a, b, c);
    assert!(v(0, 10, 5).lt(&v(0, 11, 1)));
    assert!(v(1, 2, 3).lt(&v(1, 2, 4)));
    assert!(v(1, 2, 9).lt(&v(1, 3, 0)));
    assert!(v(1, 9, 9).lt(&v(2, 0, 0)));
    assert!(!v(2, 0, 0).lt(&v(1, 9, 9)));
    assert!(!v(0, 11, 1).lt(&v(0, 11, 1)));
}

#[test]
fn version_strings_follow_the_semantic_grammar() {
    assert_eq!(SemVer::new(0, 10, 5), parse_semver_required("0.10.5").unwrap());
    assert_eq!(SemVer::new(1, 0, 12), parse_semver_required("1.0.12").unwrap());
    // The grammar accepts pre-release and build identifiers.
    assert_eq!(SemVer::new(1, 2, 3), parse_semver_required("1.2.3-alpha.1+b42").unwrap());
    // A leading `v`, too few components, or empty pre-release are rejected.
    assert!(matches!(
        parse_semver_required("v0.1.1"),
        Err(UpdaterError::InvalidVersion)
    ));
    assert!(matches!(
        parse_semver_required("1.0"),
        Err(UpdaterError::InvalidVersion)
    ));
    assert!(matches!(
        parse_semver_required("1.0.0-"),
        Err(UpdaterError::InvalidVersion)
    ));
}

#[test]
fn default_interval_is_a_day() {
    assert_eq!(86_400, UPDATE_INTERVAL);
    assert_eq!(UPDATE_INTERVAL, default_interval());
}

fn mock_release_item() -> ReleaseItem {
    ReleaseItem {
        tag_name: "v0.11.1".to_string(),
        assets: vec![
            ReleaseAsset {
                url: "http://127.0.0.1:1234/releases/assets/1".to_string(),
                name: "alfred-pinboard-rust-v0.11.1.alfredworkflow".to_string(),
                state: "uploaded".to_string(),
                browser_download_url:
                    "http://127.0.0.1:1234/releases/download/v0.11.1/alfred-pinboard-rust-v0.11.1.alfredworkflow"
                        .to_string(),
            },
            ReleaseAsset {
                url: "http://127.0.0.1:1234/releases/assets/2".to_string(),
                name: "sources.tar.gz".to_string(),
                state: "uploaded".to_string(),
                browser_download_url: "http://127.0.0.1:1234/releases/download/v0.11.1/sources.tar.gz"
                    .to_string(),
            },
        ],
    }
}

#[test]
fn it_tests_releaser() {
    let mut releaser = GithubReleaser::new(
        "MockZnVja29mZg==fd850fc2e63511e79f720023dfdf24ec".to_string(),
    );

    // Asking for a download address before any release metadata is
    // stored is an error.
    assert!(releaser.downloadable_url().is_err());

    releaser.set_release_data(mock_release_item());

    assert!(SemVer::new(0, 11, 0).lt(&releaser.latest_version().expect("couldn't do latest_version")));

    assert_eq!(
        "http://127.0.0.1:1234/releases/download/v0.11.1/alfred-pinboard-rust-v0.11.1.alfredworkflow",
        releaser.downloadable_url().unwrap()
    );
}

#[test]
fn releaser_strips_a_leading_v_from_the_tag() {
    let mut releaser = GithubReleaser::new("user/repo".to_string());
    releaser.set_release_data(mock_release_item());
    assert_eq!(SemVer::new(0, 11, 1), releaser.latest_version().unwrap());

    let mut plain = GithubReleaser::new("user/repo".to_string());
    let mut item = mock_release_item();
    item.tag_name = "0.11.1".to_string();
    plain.set_release_data(item);
    assert_eq!(SemVer::new(0, 11, 1), plain.latest_version().unwrap());
}

#[test]
fn releaser_prefers_the_more_specific_asset_suffix() {
    let asset = |state: &str, url: &str| ReleaseAsset {
        url: "http://127.0.0.1:1234/releases/assets/0".to_string(),
        name: "asset".to_string(),
        state: state.to_string(),
        browser_download_url: url.to_string(),
    };
    let mut releaser = GithubReleaser::new("user/repo".to_string());
    releaser.set_release_data(ReleaseItem {
        tag_name: "1.0.0".to_string(),
        assets: vec![
            asset("uploaded", "http://host/one.alfredworkflow"),
            asset("uploaded", "http://host/two.alfred3workflow"),
            asset("uploaded", "http://host/three.alfred3workflow"),
        ],
    });
    // The first of the preferred kind wins over an earlier generic one.
    assert_eq!(
        "http://host/two.alfred3workflow",
        releaser.downloadable_url().unwrap()
    );

    let mut generic = GithubReleaser::new("user/repo".to_string());
    generic.set_release_data(ReleaseItem {
        tag_name: "1.0.0".to_string(),
        assets: vec![
            asset("draft", "http://host/zero.alfred3workflow"),
            asset("uploaded", "http://host/one.alfredworkflow"),
            asset("uploaded", "http://host/two.alfredworkflow"),
        ],
    });
    // Without a preferred asset the first uploaded generic one wins;
    // an asset that is not fully uploaded is never chosen.
    assert_eq!(
        "http://host/one.alfredworkflow",
        generic.downloadable_url().unwrap()
    );

    let mut none = GithubReleaser::new("user/repo".to_string());
    none.set_release_data(ReleaseItem {
        tag_name: "1.0.0".to_string(),
        assets: vec![asset("uploaded", "http://host/readme.md")],
    });
    assert!(matches!(
        none.downloadable_url(),
        Err(UpdaterError::NoDownloadUrl)
    ));
}

#[test]
fn releaser_normalizes_the_chosen_address() {
    let mut releaser = GithubReleaser::new("user/repo".to_string());
    releaser.set_release_data(ReleaseItem {
        tag_name: "1.0.0".to_string(),
        assets: vec![ReleaseAsset {
            url: "http://127.0.0.1:1234/releases/assets/0".to_string(),
            name: "asset".to_string(),
            state: "uploaded".to_string(),
            browser_download_url: "HTTP://Example.COM/x.alfredworkflow".to_string(),
        }],
    });
    // The address goes through the URL grammar, which lowercases the
    // scheme and the host: the wrapper does not hand back its input.
    assert_eq!(
        "http://example.com/x.alfredworkflow",
        releaser.downloadable_url().unwrap()
    );

    let mut bad = GithubReleaser::new("user/repo".to_string());
    bad.set_release_data(ReleaseItem {
        tag_name: "1.0.0".to_string(),
        assets: vec![ReleaseAsset {
            url: "http://127.0.0.1:1234/releases/assets/0".to_string(),
            name: "asset".to_string(),
            state: "uploaded".to_string(),
            browser_download_url: "not a url alfredworkflow".to_string(),
        }],
    });
    assert!(matches!(
        bad.downloadable_url(),
        Err(UpdaterError::InvalidUrl)
    ));
}

#[test]
fn releaser_endpoint_names_the_repository() {
    let releaser = GithubReleaser::new("spamwax/alfred-pinboard-rs".to_string());
    assert_eq!(
        "https://api.github.com/repos/spamwax/alfred-pinboard-rs/releases/latest",
        releaser.latest_release_endpoint()
    );
}

#[test]
fn release_records_start_without_a_fetch_time() {
    let mut info = UpdateInfo::new(SemVer::new(0, 11, 1), "http://host/x".to_string());
    assert_eq!(None, info.fetched_at());
    assert_eq!(&SemVer::new(0, 11, 1), info.version());
    info.set_fetched_at(1_234);
    assert_eq!(Some(1_234), info.fetched_at());
}

#[test]
fn state_accessors_report_the_fields() {
    let mut st = UpdaterState::fresh(SemVer::new(0, 10, 5));
    assert_eq!(&SemVer::new(0, 10, 5), st.current_version());
    assert_eq!(None, st.latest_avail_version());
    assert_eq!(None, st.download_url());
    assert!(st.due_at(0));

    st.set_version(SemVer::new(0, 23, 3));
    assert_eq!(&SemVer::new(0, 23, 3), st.current_version());

    st.avail_release = Some(UpdateInfo::new(
        SemVer::new(0, 24, 0),
        "http://host/x.alfredworkflow".to_string(),
    ));
    assert_eq!(Some(SemVer::new(0, 24, 0)), st.latest_avail_version());
    assert_eq!(
        Some(&"http://host/x.alfredworkflow".to_string()),
        st.download_url()
    );
    assert!(st.ready());

    st.set_version(SemVer::new(0, 24, 0));
    assert!(!st.ready());
}

#[test]
fn due_check_requires_strictly_more_than_the_interval() {
    let mut st = UpdaterState::fresh(SemVer::new(0, 10, 5));
    st.last_check = Some(1_000);
    st.update_interval = 60;
    assert!(!st.due_at(1_000));
    assert!(!st.due_at(1_060));
    assert!(st.due_at(1_061));
    // A clock that went backward is never due.
    assert!(!st.due_at(900));
}

#[test]
fn merging_a_payload_replaces_the_release_outright() {
    let mut st = UpdaterState::fresh(SemVer::new(0, 10, 5));
    st.last_check = Some(1_000);
    let mut info = UpdateInfo::new(SemVer::new(0, 11, 1), "http://host/x".to_string());
    info.set_fetched_at(2_000);
    st.merge_payload(Some(info));
    assert_eq!(Some(SemVer::new(0, 11, 1)), st.latest_avail_version());
    assert_eq!(Some(2_000), st.last_check);
    assert!(st.ready());

    // A later empty payload clears the record and keeps the newer time.
    st.merge_payload(None);
    assert_eq!(None, st.latest_avail_version());
    assert_eq!(Some(2_000), st.last_check);
    assert!(!st.ready());
}
