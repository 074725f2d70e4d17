use dsh_desktop::npm::{
    check_installed_after_update, installed_version, latest_version_from_output, ManifestRead,
};
use dsh_desktop::version::{parse_dsh_version, update_available, version_less};

#[test]
fn parses_prefixed_version() {
    assert_eq!(parse_dsh_version("v1.2.3").unwrap().to_string(), "1.2.3");
}

#[test]
fn compares_semver_and_prerelease_versions() {
    let stable = parse_dsh_version("1.0.0").unwrap();
    let rc_two = parse_dsh_version("1.0.0-rc.2").unwrap();
    let rc_ten = parse_dsh_version("1.0.0-rc.10").unwrap();

    assert!(update_available(&stable, &rc_ten));
    assert!(update_available(&rc_ten, &rc_two));
    assert!(!update_available(&rc_two, &stable));
    assert!(!update_available(&stable, &stable));
}

#[test]
fn rejects_invalid_version() {
    assert!(parse_dsh_version("latest").is_err());
}

#[test]
fn strips_quotes_space_and_v_prefixes() {
    assert_eq!(parse_dsh_version("  \"v0.1.1-rc.2\"\n").unwrap().to_string(), "0.1.1-rc.2");
    assert_eq!(parse_dsh_version("'2.0.0+build.7'").unwrap().to_string(), "2.0.0+build.7");
    assert_eq!(parse_dsh_version("vv10.20.30").unwrap().to_string(), "10.20.30");
}

#[test]
fn invalid_version_message_names_the_raw_text() {
    let err = parse_dsh_version("1.0").unwrap_err();
    assert!(err.starts_with("无效的 dsh 版本号“1.0”："));
    assert!(err.len() > "无效的 dsh 版本号“1.0”：".len());
    let empty = parse_dsh_version("   ").unwrap_err();
    assert_eq!(
        empty,
        "无效的 dsh 版本号“   ”：empty string, expected a semver version"
    );
}

#[test]
fn version_order_is_strict_and_total() {
    let a = parse_dsh_version("1.2.3").unwrap();
    let b = parse_dsh_version("1.10.0").unwrap();
    assert!(version_less(&a, &b));
    assert!(!version_less(&b, &a));
    assert!(!version_less(&a, &a));
    assert!(update_available(&b, &a));
    assert!(!update_available(&a, &b));
}

#[test]
fn latest_version_is_first_parsable_line() {
    let v = latest_version_from_output("npm warn config\r\n0.2.0\n0.3.0\n").unwrap();
    assert_eq!(v.to_string(), "0.2.0");
    assert_eq!(
        latest_version_from_output("nothing here\n\n").unwrap_err(),
        "npm 返回结果里没有有效的 dsh 版本号"
    );
    assert!(latest_version_from_output("").is_err());
}

#[test]
fn installed_version_reads_manifest() {
    let found = ManifestRead {
        path: "C:/npm/@deepseek-ai/dsh/package.json".to_string(),
        contents: Ok("{\"name\":\"@deepseek-ai/dsh\",\"version\":\"0.1.1-rc.2\"}".to_string()),
    };
    assert_eq!(installed_version(Some(found)).unwrap().to_string(), "0.1.1-rc.2");
}

#[test]
fn installed_version_errors() {
    assert_eq!(
        installed_version(None).unwrap_err(),
        "未找到全局安装的 @deepseek-ai/dsh（已检查 npm root -g 与 APPDATA 兜底路径）"
    );
    let unreadable = ManifestRead { path: "p.json".to_string(), contents: Err("denied".to_string()) };
    assert_eq!(installed_version(Some(unreadable)).unwrap_err(), "读取 p.json 失败：denied");
    let no_version = ManifestRead { path: "p.json".to_string(), contents: Ok("{\"version\":3}".to_string()) };
    assert_eq!(installed_version(Some(no_version)).unwrap_err(), "p.json 缺少 version 字段");
    let not_json = ManifestRead { path: "p.json".to_string(), contents: Ok("{".to_string()) };
    let err = installed_version(Some(not_json)).unwrap_err();
    assert!(err.starts_with("解析 p.json 失败："));
    assert!(err.len() > "解析 p.json 失败：".len());
    let bad = ManifestRead { path: "p.json".to_string(), contents: Ok("{\"version\":\"x\"}".to_string()) };
    assert!(installed_version(Some(bad)).unwrap_err().starts_with("无效的 dsh 版本号“x”："));
}

#[test]
fn upgrade_must_reach_expected_version() {
    let expected = parse_dsh_version("0.2.0").unwrap();
    let older = parse_dsh_version("0.1.9").unwrap();
    assert_eq!(
        check_installed_after_update(Ok(older), &expected).unwrap_err(),
        "npm 已完成，但实际版本仍为 v0.1.9（期望至少 v0.2.0）"
    );
    let same = parse_dsh_version("0.2.0").unwrap();
    assert_eq!(check_installed_after_update(Ok(same), &expected).unwrap().to_string(), "0.2.0");
    let newer = parse_dsh_version("0.3.0").unwrap();
    assert_eq!(check_installed_after_update(Ok(newer), &expected).unwrap().to_string(), "0.3.0");
    assert_eq!(
        check_installed_after_update(Err("gone".to_string()), &expected).unwrap_err(),
        "npm 已完成，但无法验证安装版本：gone"
    );
}

#[test]
fn build_metadata_does_not_order_versions() {
    let a = parse_dsh_version("1.0.0+a").unwrap();
    let b = parse_dsh_version("1.0.0+b").unwrap();
    let plain = parse_dsh_version("1.0.0").unwrap();
    assert!(!update_available(&a, &b));
    assert!(!update_available(&b, &a));
    assert!(!update_available(&a, &plain));
    assert!(!version_less(&plain, &b));
    let newer = parse_dsh_version("1.0.1+a").unwrap();
    assert!(update_available(&newer, &b));
    assert_eq!(check_installed_after_update(Ok(a), &b).unwrap().to_string(), "1.0.0+a");
}
