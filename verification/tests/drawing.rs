use nt_progress::bars::{bar_style, compose_bar, compose_gradient};
use nt_progress::config::Config;
use nt_progress::errors::ModeCreationError;
use nt_progress::mode_parameters::ThreadMode;

fn strings(v: &[&str]) -> Vec<String> {
    v.iter().map(|s| s.to_string()).collect()
}

#[test]
fn composed_bars_put_the_escapes_where_the_style_has_colors() {
    let plain = bar_style(&Vec::new(), '=');
    assert_eq!(compose_bar(&plain, 3, 5, "<A>", "<B>", "<R>"), "[===  ]");
    let colored = bar_style(&strings(&["#", "-", "red", "blue"]), '=');
    assert_eq!(compose_bar(&colored, 2, 4, "<A>", "<B>", "<R>"), "[<A>##<R><B>--<R>]");
    assert_eq!(compose_bar(&colored, 9, 3, "<A>", "<B>", "<R>"), "[<A>###<R><B><R>]");
    let empty_only = bar_style(&strings(&["#", "-", "", "blue"]), '=');
    assert_eq!(compose_bar(&empty_only, 1, 3, "<A>", "<B>", "<R>"), "[#<B>--<R>]");
}

#[test]
fn composed_gradients_switch_cells_halfway_through_the_filled_part() {
    assert_eq!(compose_gradient(6, 4, "s", "e"), "[ssee  ]");
    assert_eq!(compose_gradient(3, 0, "s", "e"), "[   ]");
    assert_eq!(compose_gradient(2, 5, "s", "e"), "[ss]");
    assert_eq!(compose_gradient(4, 3, "ab", "c"), "[ababc ]");
}

#[test]
fn refused_capabilities_name_the_mode_and_its_counts() {
    let mut config = Config::new(ThreadMode::Limited, 3).unwrap();
    match config.set_title("x".to_string()) {
        Err(ModeCreationError::Implementation(m)) => assert_eq!(
            m,
            "Title capability not supported by Limited { total_jobs: 3, completed_jobs: 0 }"
        ),
        other => panic!("unexpected {:?}", other),
    }
    let mut config = Config::new(ThreadMode::Window(2), 7).unwrap();
    match config.add_emoji("x") {
        Err(ModeCreationError::Implementation(m)) => {
            assert!(m.ends_with("not supported by Window { total_jobs: 7, completed_jobs: 0 }"))
        }
        other => panic!("unexpected {:?}", other),
    }
}
