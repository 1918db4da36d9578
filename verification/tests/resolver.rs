use std::io::Write;

use workstation::archive::ExtractError;
use workstation::fetch::FetchError;
use workstation::install::{InstallError, EXECUTABLE_MODE};
use workstation::package::PackageConfig;
use workstation::resolver::{
    closing_message, conclude, downloaded_message, installing_message, payload, plan_install,
    Failure, InstallPlan, PackageError,
};

fn tar_gz(entries: &[(&str, &[u8])]) -> Vec<u8> {
    let encoder = flate2::write::GzEncoder::new(Vec::new(), flate2::Compression::default());
    let mut builder = tar::Builder::new(encoder);
    for (path, data) in entries {
        let mut header = tar::Header::new_gnu();
        header.set_size(data.len() as u64);
        header.set_mode(0o600);
        header.set_cksum();
        builder.append_data(&mut header, path, *data).unwrap();
    }
    builder.into_inner().unwrap().finish().unwrap()
}

fn zip_file(entries: &[(&str, &[u8])]) -> Vec<u8> {
    let mut writer = zip::ZipWriter::new(std::io::Cursor::new(Vec::new()));
    for (path, data) in entries {
        writer
            .start_file(*path, zip::write::SimpleFileOptions::default())
            .unwrap();
        writer.write_all(data).unwrap();
    }
    writer.finish().unwrap().into_inner()
}

fn binary(name: &str, url: &str) -> PackageConfig {
    PackageConfig::Binary { name: name.to_string(), url: url.to_string() }
}

fn archive(name: &str, bin: &str, url: &str) -> PackageConfig {
    PackageConfig::Archive { name: name.to_string(), bin: bin.to_string(), archive: url.to_string() }
}

#[test]
fn scenario_binary_package_is_planned_whole() {
    let package = binary("tool", "http://host/tool");
    let body = b"0123456789".to_vec();
    let plan = plan_install(None, "/opt/bin", &package, Ok(body.clone())).unwrap();
    assert_eq!(plan.path, "/opt/bin/tool");
    assert_eq!(plan.bytes, body);
    assert_eq!(plan.bytes.len(), 10);
    assert_eq!(plan.mode, 0o755);
    assert_eq!(conclude(&package, Ok(())), Ok(()));
}

#[test]
fn scenario_archive_package_is_planned_from_its_entry() {
    let package = archive("tool", "tool-v1/tool", "http://host/pkg.tar.gz");
    let body = tar_gz(&[("tool-v1/tool", b"X")]);
    let plan = plan_install(Some("/home/u"), "~/.local/bin", &package, Ok(body)).unwrap();
    assert_eq!(
        plan,
        InstallPlan {
            path: "/home/u/.local/bin/tool".to_string(),
            bytes: b"X".to_vec(),
            mode: EXECUTABLE_MODE,
        }
    );
}

#[test]
fn scenario_zip_package_is_planned_from_its_entry() {
    let package = archive("tool", "bin/tool", "http://host/pkg.zip");
    let body = zip_file(&[("bin/readme", b"r"), ("bin/tool", b"Z")]);
    let plan = plan_install(None, "/opt/bin", &package, Ok(body)).unwrap();
    assert_eq!(plan.path, "/opt/bin/tool");
    assert_eq!(plan.bytes, b"Z".to_vec());
    assert_eq!(plan.mode, 0o755);
}

#[test]
fn scenario_one_failed_fetch_leaves_the_others_alone() {
    let packages = [
        binary("first", "http://host/first"),
        binary("second", "http://host/second"),
        archive("third", "third", "http://host/third.tar.gz"),
    ];
    let fetched = vec![
        Ok(b"one".to_vec()),
        Err(FetchError::Status { url: "http://host/second".to_string(), status: 404 }),
        Ok(tar_gz(&[("third", b"three")])),
    ];
    let mut plans = Vec::new();
    for (package, body) in packages.iter().zip(fetched) {
        plans.push(plan_install(None, "/opt/bin", package, body));
    }
    assert_eq!(
        plans[0],
        Ok(InstallPlan { path: "/opt/bin/first".to_string(), bytes: b"one".to_vec(), mode: 0o755 })
    );
    assert_eq!(
        plans[2],
        Ok(InstallPlan { path: "/opt/bin/third".to_string(), bytes: b"three".to_vec(), mode: 0o755 })
    );
    let failure = plans[1].as_ref().unwrap_err();
    assert_eq!(failure.package, "second");
    assert_eq!(
        failure.failure,
        Failure::Fetch(FetchError::Status { url: "http://host/second".to_string(), status: 404 })
    );
    assert_eq!(failure.message(), "Error installing second: Failed to download http://host/second");
    assert!(failure.message().contains("second"));
    assert!(!failure.message().contains("first"));
    assert!(!failure.message().contains("third"));
}

#[test]
fn planning_twice_gives_the_same_plan() {
    let package = archive("tool", "tool", "http://host/pkg.tar.gz");
    let body = tar_gz(&[("tool", b"payload")]);
    let first = plan_install(Some("/home/u"), "~/bin", &package, Ok(body.clone()));
    let second = plan_install(Some("/home/u"), "~/bin", &package, Ok(body));
    assert_eq!(first, second);
    assert_eq!(first.unwrap().mode, 0o755);
}

#[test]
fn equal_payloads_in_different_bodies_give_the_same_plan() {
    let package = archive("tool", "tool", "http://host/pkg.tar.gz");
    let first = plan_install(None, "/opt", &package, Ok(tar_gz(&[("tool", b"payload")])));
    let second =
        plan_install(None, "/opt", &package, Ok(tar_gz(&[("other", b"o"), ("tool", b"payload")])));
    assert_eq!(first, second);
}

#[test]
fn unsupported_suffix_is_refused_whatever_the_body() {
    let package = archive("tool", "tool", "http://host/pkg.rar");
    let bodies = [Vec::new(), b"garbage".to_vec(), tar_gz(&[("tool", b"X")]), zip_file(&[("tool", b"X")])];
    for body in bodies {
        assert_eq!(payload(&package, body.clone()), Err(ExtractError::UnsupportedFormat));
        assert_eq!(
            plan_install(None, "/opt", &package, Ok(body)),
            Err(PackageError {
                package: "tool".to_string(),
                failure: Failure::Extract(ExtractError::UnsupportedFormat),
            })
        );
    }
}

#[test]
fn payload_of_a_binary_is_its_body() {
    let package = binary("tool", "http://host/tool.tar.gz");
    assert_eq!(payload(&package, b"not an archive".to_vec()), Ok(b"not an archive".to_vec()));
    assert_eq!(payload(&package, Vec::new()), Ok(Vec::new()));
}

#[test]
fn payload_of_an_archive_is_its_entry() {
    let package = archive("tool", "dir/tool", "http://host/pkg.tar.gz");
    assert_eq!(payload(&package, tar_gz(&[("dir/tool", b"X")])), Ok(b"X".to_vec()));
    assert_eq!(payload(&package, tar_gz(&[("tool", b"X")])), Err(ExtractError::EntryNotFound));
}

#[test]
fn the_suffix_decides_the_container_not_the_body() {
    let package = archive("tool", "tool", "http://host/pkg.zip");
    let result = payload(&package, tar_gz(&[("tool", b"X")]));
    assert!(matches!(result, Err(ExtractError::Corrupt { .. })));
}

#[test]
fn failures_come_in_pipeline_order() {
    let package = archive("tool", "tool", "http://host/pkg.rar");
    let fetch_failed = plan_install(
        None,
        "~/bin",
        &package,
        Err(FetchError::MissingLength { url: "http://host/pkg.rar".to_string() }),
    );
    assert_eq!(
        fetch_failed,
        Err(PackageError {
            package: "tool".to_string(),
            failure: Failure::Fetch(FetchError::MissingLength {
                url: "http://host/pkg.rar".to_string()
            }),
        })
    );
    let extract_failed = plan_install(None, "~/bin", &package, Ok(Vec::new()));
    assert_eq!(
        extract_failed.unwrap_err().failure,
        Failure::Extract(ExtractError::UnsupportedFormat)
    );
    let path_failed = plan_install(None, "~/bin", &binary("tool", "u"), Ok(Vec::new()));
    assert_eq!(
        path_failed,
        Err(PackageError {
            package: "tool".to_string(),
            failure: Failure::Install(InstallError::PathResolution {
                location: "~/bin".to_string()
            }),
        })
    );
}

#[test]
fn conclude_wraps_a_write_failure_with_the_name() {
    let package = binary("tool", "http://host/tool");
    let failure = InstallError::Io {
        path: "/opt/bin/tool".to_string(),
        cause: "permission denied".to_string(),
    };
    let outcome = conclude(&package, Err(failure)).unwrap_err();
    assert_eq!(outcome.package, "tool");
    assert_eq!(
        outcome.message(),
        "Error installing tool: Failed to write /opt/bin/tool: permission denied"
    );
}

#[test]
fn messages_for_each_failure() {
    let corrupt = PackageError {
        package: "tool".to_string(),
        failure: Failure::Extract(ExtractError::Corrupt { cause: "bad header".to_string() }),
    };
    assert_eq!(corrupt.message(), "Error installing tool: Corrupt archive: bad header");
    let missing = PackageError {
        package: "tool".to_string(),
        failure: Failure::Extract(ExtractError::EntryNotFound),
    };
    assert_eq!(missing.message(), "Error installing tool: Entry not found");
    let unsupported = Failure::Extract(ExtractError::UnsupportedFormat);
    assert_eq!(unsupported.message(), "Unsupported archive format");
    let home = Failure::Install(InstallError::PathResolution { location: "~x".to_string() });
    assert_eq!(home.message(), "No home directory found for ~x");
}

#[test]
fn progress_messages() {
    assert_eq!(installing_message("tool"), "Installing tool");
    assert_eq!(downloaded_message("tool"), "Downloaded tool");
    assert_eq!(installing_message(""), "Installing ");
}

#[test]
fn packages_of_one_name_are_planned_for_one_path() {
    let first = plan_install(None, "/opt/bin", &binary("tool", "http://a/tool"), Ok(b"a".to_vec()));
    let second = plan_install(None, "/opt/bin", &binary("tool", "http://b/tool"), Ok(b"b".to_vec()));
    assert_eq!(first.unwrap().path, "/opt/bin/tool");
    assert_eq!(second.unwrap().path, "/opt/bin/tool");
}

#[test]
fn the_plan_does_not_depend_on_what_the_archive_stores_as_mode() {
    let package = archive("tool", "tool", "http://host/pkg.tar.gz");
    let plan = plan_install(None, "/opt", &package, Ok(tar_gz(&[("tool", b"X")]))).unwrap();
    assert_eq!(plan.mode, 0o755);
}

#[test]
fn the_closing_message_is_the_completion_line_or_the_failure() {
    assert_eq!(closing_message("tool", &Ok(())), "Downloaded tool");
    let failed = Err(PackageError {
        package: "tool".to_string(),
        failure: Failure::Extract(ExtractError::EntryNotFound),
    });
    assert_eq!(closing_message("tool", &failed), "Error installing tool: Entry not found");
}
