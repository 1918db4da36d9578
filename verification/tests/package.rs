use workstation::package::{
    decode_packages, ConfigError, DecodeError, PackageConfig, PackageFields,
};

fn text(s: &str) -> Option<String> {
    Some(s.to_string())
}

#[test]
fn name_of_either_shape() {
    let archive = PackageConfig::Archive {
        name: "tool".to_string(),
        bin: "tool-v1/tool".to_string(),
        archive: "http://host/pkg.tar.gz".to_string(),
    };
    let binary = PackageConfig::Binary { name: "other".to_string(), url: "http://host/other".to_string() };
    assert_eq!(archive.name(), "tool");
    assert_eq!(binary.name(), "other");
}

#[test]
fn source_url_of_either_shape() {
    let archive = PackageConfig::Archive {
        name: "tool".to_string(),
        bin: "tool-v1/tool".to_string(),
        archive: "http://host/pkg.tar.gz".to_string(),
    };
    let binary = PackageConfig::Binary { name: "other".to_string(), url: "http://host/other".to_string() };
    assert_eq!(archive.source_url(), "http://host/pkg.tar.gz");
    assert_eq!(binary.source_url(), "http://host/other");
}

#[test]
fn fields_of_an_archive() {
    assert_eq!(
        PackageConfig::from_fields(text("tool"), text("bin/tool"), text("http://h/p.zip"), None),
        Ok(PackageConfig::Archive {
            name: "tool".to_string(),
            bin: "bin/tool".to_string(),
            archive: "http://h/p.zip".to_string(),
        })
    );
}

#[test]
fn fields_of_a_binary() {
    assert_eq!(
        PackageConfig::from_fields(text("tool"), None, None, text("http://h/tool")),
        Ok(PackageConfig::Binary { name: "tool".to_string(), url: "http://h/tool".to_string() })
    );
}

#[test]
fn a_stray_field_beside_a_url_is_still_a_binary() {
    assert_eq!(
        PackageConfig::from_fields(text("tool"), text("bin/tool"), None, text("http://h/tool")),
        Ok(PackageConfig::Binary { name: "tool".to_string(), url: "http://h/tool".to_string() })
    );
    assert_eq!(
        PackageConfig::from_fields(text("tool"), None, text("http://h/p.zip"), text("http://h/tool")),
        Ok(PackageConfig::Binary { name: "tool".to_string(), url: "http://h/tool".to_string() })
    );
}

#[test]
fn fields_that_fit_both_shapes_are_refused() {
    assert_eq!(
        PackageConfig::from_fields(text("tool"), text("b"), text("a.zip"), text("u")),
        Err(ConfigError::AmbiguousSource)
    );
}

#[test]
fn fields_that_fit_no_shape_are_refused() {
    assert_eq!(PackageConfig::from_fields(text("tool"), None, None, None), Err(ConfigError::NoSource));
    assert_eq!(
        PackageConfig::from_fields(text("tool"), text("b"), None, None),
        Err(ConfigError::NoSource)
    );
    assert_eq!(
        PackageConfig::from_fields(text("tool"), None, text("a.zip"), None),
        Err(ConfigError::NoSource)
    );
}

#[test]
fn a_missing_or_empty_name_is_refused() {
    assert_eq!(
        PackageConfig::from_fields(None, None, None, text("u")),
        Err(ConfigError::MissingName)
    );
    assert_eq!(
        PackageConfig::from_fields(None, None, None, None),
        Err(ConfigError::MissingName)
    );
    assert_eq!(
        PackageConfig::from_fields(text(""), None, None, text("u")),
        Err(ConfigError::EmptyName)
    );
    assert_eq!(
        PackageConfig::from_fields(text(""), text("b"), text("a"), text("u")),
        Err(ConfigError::EmptyName)
    );
}

#[test]
fn packages_can_be_cloned() {
    let binary = PackageConfig::Binary { name: "tool".to_string(), url: "u".to_string() };
    assert_eq!(binary.clone(), binary);
}

fn fields(name: Option<&str>, bin: Option<&str>, archive: Option<&str>, url: Option<&str>) -> PackageFields {
    PackageFields {
        name: name.map(str::to_string),
        bin: bin.map(str::to_string),
        archive: archive.map(str::to_string),
        url: url.map(str::to_string),
    }
}

#[test]
fn decode_agrees_with_from_fields() {
    let archive = fields(Some("tool"), Some("bin/tool"), Some("http://h/p.zip"), None);
    assert_eq!(
        archive.decode(),
        PackageConfig::from_fields(text("tool"), text("bin/tool"), text("http://h/p.zip"), None)
    );
    assert_eq!(archive.name, text("tool"));
    assert_eq!(fields(None, None, None, Some("u")).decode(), Err(ConfigError::MissingName));
}

#[test]
fn a_list_is_decoded_in_order() {
    let list = vec![
        fields(Some("a"), None, None, Some("http://h/a")),
        fields(Some("b"), Some("b"), Some("http://h/b.tar.gz"), None),
        fields(Some("a"), None, None, Some("http://h/other")),
    ];
    assert_eq!(
        decode_packages(&list),
        Ok(vec![
            PackageConfig::Binary { name: "a".to_string(), url: "http://h/a".to_string() },
            PackageConfig::Archive {
                name: "b".to_string(),
                bin: "b".to_string(),
                archive: "http://h/b.tar.gz".to_string(),
            },
            PackageConfig::Binary { name: "a".to_string(), url: "http://h/other".to_string() },
        ])
    );
}

#[test]
fn an_empty_list_is_decoded_to_no_package() {
    assert_eq!(decode_packages(&Vec::new()), Ok(Vec::new()));
}

#[test]
fn a_list_is_turned_down_for_its_first_bad_description() {
    let list = vec![
        fields(Some("a"), None, None, Some("http://h/a")),
        fields(Some("b"), Some("b"), None, None),
        fields(None, None, None, Some("http://h/c")),
    ];
    assert_eq!(decode_packages(&list), Err(DecodeError { index: 1, error: ConfigError::NoSource }));
    let list = vec![fields(Some(""), None, None, Some("http://h/a"))];
    assert_eq!(decode_packages(&list), Err(DecodeError { index: 0, error: ConfigError::EmptyName }));
}
