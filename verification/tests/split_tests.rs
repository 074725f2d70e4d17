use dsh_desktop::npm::{manifest_version_text, pick_first_version, upgrade_verdict};
use dsh_desktop::update::{update_step_with, UpdateAction, UpdateEvent, UpdateFlow};
use dsh_desktop::version::{normalize_version_text, parse_dsh_version, version_outcome};

#[test]
fn normalization_of_version_text() {
    assert_eq!(normalize_version_text(" \"'v1.2.3'\" "), "1.2.3");
    assert_eq!(normalize_version_text("'\"v1\"'"), "\"v1\"");
    assert_eq!(normalize_version_text("vvv"), "");
    assert_eq!(normalize_version_text("1.0.0v"), "1.0.0v");
}

#[test]
fn version_outcome_messages() {
    assert_eq!(
        version_outcome("raw", Err("bad".to_string())).unwrap_err(),
        "无效的 dsh 版本号“raw”：bad"
    );
    let v = parse_dsh_version("3.4.5").unwrap();
    assert_eq!(version_outcome("x", Ok(v)).unwrap().to_string(), "3.4.5");
}

#[test]
fn manifest_version_text_outcomes() {
    assert_eq!(manifest_version_text("m", Ok(Some("1.0.0".into()))).unwrap(), "1.0.0");
    assert_eq!(manifest_version_text("m", Ok(None)).unwrap_err(), "m 缺少 version 字段");
    assert_eq!(manifest_version_text("m", Err("eof".into())).unwrap_err(), "解析 m 失败：eof");
}

#[test]
fn first_version_is_picked() {
    let picked = pick_first_version(vec![
        Err("a".to_string()),
        Ok(parse_dsh_version("1.1.0").unwrap()),
        Ok(parse_dsh_version("2.0.0").unwrap()),
    ])
    .unwrap();
    assert_eq!(picked.to_string(), "1.1.0");
    assert_eq!(
        pick_first_version(vec![Err("a".to_string())]).unwrap_err(),
        "npm 返回结果里没有有效的 dsh 版本号"
    );
    assert!(pick_first_version(Vec::new()).is_err());
}

#[test]
fn upgrade_verdicts() {
    let expected = parse_dsh_version("1.0.0").unwrap();
    assert_eq!(
        upgrade_verdict(Ok(parse_dsh_version("0.9.0").unwrap()), &expected, true).unwrap_err(),
        "npm 已完成，但实际版本仍为 v0.9.0（期望至少 v1.0.0）"
    );
    assert_eq!(
        upgrade_verdict(Ok(parse_dsh_version("1.0.0").unwrap()), &expected, false).unwrap().to_string(),
        "1.0.0"
    );
    assert_eq!(
        upgrade_verdict(Err("x".into()), &expected, true).unwrap_err(),
        "npm 已完成，但无法验证安装版本：x"
    );
}

#[test]
fn flow_step_with_given_comparison() {
    let installed = parse_dsh_version("1.0.0").unwrap();
    let latest = parse_dsh_version("0.5.0").unwrap();
    let (s, a) = update_step_with(
        false,
        UpdateFlow::QueryingLatest { installed },
        UpdateEvent::Latest(Ok(latest)),
        true,
    );
    assert!(matches!(s, UpdateFlow::Confirming { .. }));
    match a {
        UpdateAction::Offer { message } => assert!(message.starts_with("发现 dsh 新版本 v0.5.0（当前 v1.0.0）")),
        _ => panic!("expected offer"),
    }
}

#[test]
fn version_text_reads_back() {
    for raw in ["1.2.3", "0.1.1-rc.2", "2.0.0+build.7", "1.0.0-alpha.1+x-y"] {
        let v = parse_dsh_version(raw).unwrap();
        let text = v.to_string();
        assert_eq!(text, raw);
        for wrapped in [text.clone(), format!("v{text}"), format!(" \"{text}\"\n"), format!("'v{text}'")] {
            assert_eq!(parse_dsh_version(&wrapped).unwrap().to_string(), raw);
        }
    }
}
