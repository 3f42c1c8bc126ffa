use nt_progress::recovery::{with_fallback, FallbackConfig};

#[test]
fn a_success_stands_and_a_failure_falls_back_when_allowed() {
    let on = FallbackConfig::default();
    let off = FallbackConfig { use_fallback: false, log_fallback: false };
    let ok = || -> Result<u32, String> { Ok(1) };
    let failing = || -> Result<u32, String> { Err("primary".to_string()) };
    assert_eq!(with_fallback(&on, ok, |_e: String| Ok(2)), Ok(1));
    assert_eq!(with_fallback(&on, failing, |e: String| Ok(e.len() as u32)), Ok(7));
    assert_eq!(
        with_fallback(&on, failing, |e: String| Err(format!("{} then fallback", e))),
        Err("primary then fallback".to_string())
    );
    assert_eq!(with_fallback(&off, failing, |_e: String| Ok(2)), Err("primary".to_string()));
}
