use screencapturekit_rs::catalog::{DisplayInfo, ProviderSnapshot, ShareableContent, WindowInfo};
use screencapturekit_rs::filters::{ContentFilterFactory, FilterStep, FilterTier};
use screencapturekit_rs::types::{ContentFilterType, SCError};

fn catalog() -> ShareableContent {
    ShareableContent::from_providers(
        Some(ProviderSnapshot {
            displays: vec![
                DisplayInfo { id: 1, name: "Main".to_string(), width: 1920, height: 1080 },
                DisplayInfo { id: 2, name: "Side".to_string(), width: 1920, height: 1080 },
            ],
            windows: vec![
                WindowInfo { id: 20, title: "Terminal".to_string(), width: 900, height: 600 },
                WindowInfo { id: 21, title: "Browser".to_string(), width: 900, height: 600 },
            ],
        }),
        None,
    )
}

#[test]
fn absent_window_fails_before_any_attempt() {
    let c = catalog();
    let chain = ContentFilterFactory::create_for_source(&c, "window:999").unwrap();
    assert!(!chain.eligible);
    assert!(matches!(chain.step(), FilterStep::Done(Err(SCError::FilterCreationFailed))));
}

#[test]
fn tiers_are_tried_in_order_until_exhausted() {
    let c = catalog();
    let mut chain = ContentFilterFactory::create_for_source(&c, "display:2").unwrap();
    assert!(matches!(chain.step(), FilterStep::Attempt(FilterTier::Exact, ContentFilterType::Display(2))));
    chain.report(None);
    assert!(matches!(chain.step(), FilterStep::Attempt(FilterTier::FallbackObject, ContentFilterType::Display(1))));
    chain.report(Some(0));
    assert!(matches!(chain.step(), FilterStep::Attempt(FilterTier::Generic, ContentFilterType::Desktop)));
    chain.report(None);
    assert!(matches!(chain.step(), FilterStep::Done(Err(SCError::FilterCreationFailed))));
}

#[test]
fn first_success_ends_the_chain() {
    let c = catalog();
    let mut chain = ContentFilterFactory::create_for_source(&c, "window:21").unwrap();
    assert!(matches!(chain.step(), FilterStep::Attempt(FilterTier::Exact, ContentFilterType::Window(21))));
    chain.report(None);
    assert!(matches!(chain.step(), FilterStep::Attempt(FilterTier::FallbackObject, ContentFilterType::Window(20))));
    chain.report(Some(77));
    match chain.step() {
        FilterStep::Done(Ok(f)) => {
            assert_eq!(f.handle, 77);
            assert_eq!(f.tier, FilterTier::FallbackObject);
            assert_eq!(f.get_filter_type(), ContentFilterType::Window(20));
            assert!(f.is_valid());
        }
        other => panic!("unexpected step {:?}", other),
    }
}

#[test]
fn desktop_filter_has_only_generic_tier() {
    let mut chain = ContentFilterFactory::create_desktop_filter();
    assert!(matches!(chain.step(), FilterStep::Attempt(FilterTier::Generic, ContentFilterType::Desktop)));
    chain.report(Some(5));
    match chain.step() {
        FilterStep::Done(Ok(f)) => assert_eq!(f.get_tier(), FilterTier::Generic),
        other => panic!("unexpected step {:?}", other),
    }
}

#[test]
fn malformed_source_is_invalid_configuration() {
    let c = catalog();
    assert!(matches!(ContentFilterFactory::create_for_source(&c, "monitor:1"), Err(SCError::InvalidConfiguration)));
    assert!(matches!(ContentFilterFactory::create_for_source(&c, "display:x"), Err(SCError::InvalidConfiguration)));
}

#[test]
fn invalidated_filter_gives_null_handle() {
    let mut chain = ContentFilterFactory::create_display_filter(&catalog(), 1);
    chain.report(Some(9));
    let mut f = match chain.step() {
        FilterStep::Done(Ok(f)) => f,
        other => panic!("unexpected step {:?}", other),
    };
    assert_eq!(f.get_filter_ptr(), 9);
    f.invalidate();
    assert!(!f.is_valid());
    assert_eq!(f.get_filter_ptr(), 0);
    assert_eq!(f.get_filter_type(), ContentFilterType::Display(1));
}
