use lictool::errors::Error;
use lictool::spdx::order_for_display;
use lictool::spdx::License;
use lictool::spdx::LicenseDetails;
use lictool::spdx::Licenses;

const LICENSES_FIXTURE: &str = r#"{
  "licenseListVersion": "3.23",
  "licenses": [
    {
      "isDeprecatedLicenseId": false,
      "detailsUrl": "https://spdx.org/licenses/BSD-4.3TAHOE.json",
      "licenseId": "BSD-4.3TAHOE",
      "isOsiApproved": false
    },
    {
      "isDeprecatedLicenseId": false,
      "detailsUrl": "https://spdx.org/licenses/AML-glslang.json",
      "licenseId": "AML-glslang",
      "isOsiApproved": false
    }
  ]
}"#;

fn summary_from_value(v: &serde_json::Value) -> Result<License, Error> {
    License::from_fields(
        v.get("isDeprecatedLicenseId").and_then(|x| x.as_bool()),
        v.get("detailsUrl").and_then(|x| x.as_str()).map(|s| s.to_string()),
        v.get("licenseId").and_then(|x| x.as_str()).map(|s| s.to_string()),
        v.get("isOsiApproved").and_then(|x| x.as_bool()),
        v.get("isFsfLibre").and_then(|x| x.as_bool()),
    )
}

fn license(id: &str, deprecated: bool, osi: bool, fsf: Option<bool>) -> License {
    License {
        is_deprecated_license_id: deprecated,
        details_url: format!("https://spdx.org/licenses/{}.json", id),
        id: id.to_string(),
        is_osi_approved: osi,
        is_fsf_libre: fsf,
    }
}

#[test]
fn fixture_license_list_round_trip() {
    let root: serde_json::Value = serde_json::from_str(LICENSES_FIXTURE).unwrap();
    let entries = root.get("licenses").unwrap().as_array().unwrap();
    let mut body = Vec::new();
    for entry in entries {
        body.push(summary_from_value(entry).unwrap());
    }
    let licenses = Licenses { body };
    let expected = Licenses {
        body: vec![
            License {
                is_deprecated_license_id: false,
                details_url: "https://spdx.org/licenses/BSD-4.3TAHOE.json".to_string(),
                id: "BSD-4.3TAHOE".to_string(),
                is_osi_approved: false,
                is_fsf_libre: None,
            },
            License {
                is_deprecated_license_id: false,
                details_url: "https://spdx.org/licenses/AML-glslang.json".to_string(),
                id: "AML-glslang".to_string(),
                is_osi_approved: false,
                is_fsf_libre: None,
            },
        ],
    };
    assert_eq!(licenses, expected);
}

#[test]
fn missing_required_field_is_malformed() {
    let v: serde_json::Value =
        serde_json::from_str(r#"{"licenseId": "MIT", "isOsiApproved": true}"#).unwrap();
    assert_eq!(summary_from_value(&v), Err(Error::Malformed));
}

#[test]
fn osi_filter_selects_exactly_the_osi_approved() {
    let ls = Licenses {
        body: vec![
            license("A", false, true, None),
            license("B", false, false, None),
            license("C", true, true, Some(true)),
            license("D", true, false, Some(false)),
        ],
    };
    let filtered = ls.filter_by(false, false, true, false);
    let ids: Vec<&str> = filtered.iter().map(|l| l.id.as_str()).collect();
    assert_eq!(ids, vec!["A", "C"]);
    for l in &ls.body {
        assert_eq!(filtered.iter().any(|f| f.id == l.id), l.is_osi_approved);
    }
}

#[test]
fn combined_filters_are_a_conjunction() {
    let ls = Licenses {
        body: vec![
            license("A", false, true, None),
            license("B", false, false, None),
            license("C", true, true, Some(true)),
            license("D", false, true, Some(true)),
        ],
    };
    let filtered = ls.filter_by(false, true, true, false);
    let ids: Vec<&str> = filtered.iter().map(|l| l.id.as_str()).collect();
    assert_eq!(ids, vec!["A", "D"]);
    let osi_only = ls.filter_by(false, false, true, false);
    let supported_only = ls.filter_by(false, true, false, false);
    for l in &filtered {
        assert!(osi_only.iter().any(|f| f.id == l.id));
        assert!(supported_only.iter().any(|f| f.id == l.id));
    }
}

#[test]
fn no_filters_keep_everything() {
    let ls = Licenses {
        body: vec![license("A", true, false, None), license("B", false, true, None)],
    };
    let filtered = ls.filter_by(false, false, false, false);
    assert_eq!(filtered.len(), 2);
}

#[test]
fn find_by_id_returns_first_match() {
    let ls = Licenses {
        body: vec![license("A", false, false, None), license("B", true, true, None)],
    };
    let found = ls.find_by_id(&"B".to_string()).unwrap();
    assert_eq!(found.id, "B");
    assert!(found.is_deprecated_license_id);
}

#[test]
fn find_by_id_reports_not_found() {
    let ls = Licenses {
        body: vec![license("A", false, false, None)],
    };
    assert_eq!(ls.find_by_id(&"ZZZ".to_string()), Err(Error::NotFound));
}

#[test]
fn display_order_puts_supported_first_and_keeps_order() {
    let a = license("A", true, false, None);
    let b = license("B", false, false, None);
    let c = license("C", true, false, None);
    let d = license("D", false, false, None);
    let v: Vec<&License> = vec![&a, &b, &c, &d];
    let ordered = order_for_display(&v);
    let ids: Vec<&str> = ordered.iter().map(|l| l.id.as_str()).collect();
    assert_eq!(ids, vec!["B", "D", "A", "C"]);
}

#[test]
fn details_fixture_fields_round_trip() {
    let fixture = r#"{
      "isDeprecatedLicenseId": false,
      "licenseText": "Copyright (c) 2002, NVIDIA Corporation.\n",
      "name": "AML glslang variant License",
      "licenseId": "AML-glslang",
      "seeAlso": [
        "https://github.com/KhronosGroup/glslang/blob/main/LICENSE.txt#L949",
        "https://docs.omniverse.nvidia.com/install-guide/latest/common/licenses.html"
      ],
      "isOsiApproved": false
    }"#;
    let v: serde_json::Value = serde_json::from_str(fixture).unwrap();
    let see_also = v.get("seeAlso").and_then(|x| x.as_array()).map(|a| {
        a.iter()
            .filter_map(|x| x.as_str())
            .map(|s| s.to_string())
            .collect::<Vec<String>>()
    });
    let details = LicenseDetails::from_fields(
        v.get("isDeprecatedLicenseId").and_then(|x| x.as_bool()),
        v.get("licenseText").and_then(|x| x.as_str()).map(|s| s.to_string()),
        v.get("name").and_then(|x| x.as_str()).map(|s| s.to_string()),
        v.get("licenseComments").and_then(|x| x.as_str()).map(|s| s.to_string()),
        v.get("licenseId").and_then(|x| x.as_str()).map(|s| s.to_string()),
        see_also,
        v.get("isOsiApproved").and_then(|x| x.as_bool()),
        v.get("isFsfLibre").and_then(|x| x.as_bool()),
        v.get("deprecatedVersion").and_then(|x| x.as_str()).map(|s| s.to_string()),
    )
    .unwrap();
    let expected = LicenseDetails {
        is_deprecated_license_id: false,
        license_text: "Copyright (c) 2002, NVIDIA Corporation.\n".to_string(),
        name: "AML glslang variant License".to_string(),
        license_comments: None,
        license_id: "AML-glslang".to_string(),
        see_also: vec![
            "https://github.com/KhronosGroup/glslang/blob/main/LICENSE.txt#L949".to_string(),
            "https://docs.omniverse.nvidia.com/install-guide/latest/common/licenses.html"
                .to_string(),
        ],
        is_osi_approved: false,
        is_fsf_libre: None,
        deprecated_version: None,
    };
    assert_eq!(details, expected);
}

#[test]
fn marker_detection_by_category() {
    let mut details = LicenseDetails {
        is_deprecated_license_id: false,
        license_text: "Copyright [yyyy] <owner> of <program>, mail <EMAIL>".to_string(),
        name: "Example".to_string(),
        license_comments: None,
        license_id: "Example".to_string(),
        see_also: vec![],
        is_osi_approved: false,
        is_fsf_libre: None,
        deprecated_version: None,
    };
    assert!(details.has_year());
    assert!(details.has_owner());
    assert!(details.has_repo());
    assert!(details.has_email());
    details.license_text = "no placeholders at all".to_string();
    assert!(!details.has_year());
    assert!(!details.has_owner());
    assert!(!details.has_repo());
    assert!(!details.has_email());
}
