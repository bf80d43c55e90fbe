use bastion::CommonArgs;
use bastion::LinuxArgs;

#[test]
fn common_args_empty_yield_no_tokens() {
    let a = CommonArgs { console: false, gfx_api: None };
    let tokens = a.to_args();
    assert!(tokens.is_empty());
}

#[test]
fn common_args_full_yield_console_then_gfx() {
    let a = CommonArgs { console: true, gfx_api: Some("vulkan".to_string()) };
    let tokens = a.to_args();
    assert_eq!(tokens, vec!["-console".to_string(), "-gfx".to_string(), "vulkan".to_string()]);
}

#[test]
fn common_args_console_only() {
    let a = CommonArgs { console: true, gfx_api: None };
    let tokens = a.to_args();
    assert_eq!(tokens, vec!["-console".to_string()]);
}

#[test]
fn common_args_gfx_only() {
    let a = CommonArgs { console: false, gfx_api: Some("dx11".to_string()) };
    let tokens = a.to_args();
    assert_eq!(tokens, vec!["-gfx".to_string(), "dx11".to_string()]);
}

#[test]
fn linux_args_gfx_only_no_console_token() {
    let a = LinuxArgs { gfx_api: Some("vulkan".to_string()) };
    let tokens = a.to_args();
    assert_eq!(tokens, vec!["-gfx".to_string(), "vulkan".to_string()]);
    assert!(tokens.iter().all(|t| t != "-console"));
}

#[test]
fn linux_args_empty_yield_no_tokens() {
    let a = LinuxArgs { gfx_api: None };
    let tokens = a.to_args();
    assert!(tokens.is_empty());
}
