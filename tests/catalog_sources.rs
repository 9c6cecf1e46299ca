use screencapturekit_rs::catalog::{
    live_display, live_windows, LiveWindowEntry, CatalogProvider, CoreGraphicsHelpers, DisplayInfo, ProviderSnapshot, RawBounds,
    RawWindowEntry, ShareableContent, TitleField, WindowInfo,
};
use screencapturekit_rs::source_id::{parse_source_id, source_id, SourceSelector};
use screencapturekit_rs::types::SCError;

fn display(id: u32) -> DisplayInfo {
    DisplayInfo { id, name: format!("Display {}", id), width: 2560, height: 1440 }
}

fn window(id: u32, title: &str, width: u32, height: u32) -> WindowInfo {
    WindowInfo { id, title: title.to_string(), width, height }
}

fn live_snapshot() -> ProviderSnapshot {
    ProviderSnapshot {
        displays: vec![display(1), display(2)],
        windows: vec![
            window(10, "Editor", 1200, 800),
            window(11, "", 1200, 800),
            window(12, "Tiny", 99, 500),
            window(13, "Edge", 100, 100),
            window(14, "Short", 500, 99),
        ],
    }
}

#[test]
fn live_catalog_filters_windows() {
    let c = ShareableContent::from_providers(Some(live_snapshot()), None);
    assert_eq!(c.provider, CatalogProvider::Live);
    assert_eq!(c.displays.len(), 2);
    let ids: Vec<u32> = c.windows.iter().map(|w| w.id).collect();
    assert_eq!(ids, vec![10, 13]);
}

#[test]
fn system_catalog_when_live_has_no_displays() {
    let live = ProviderSnapshot { displays: vec![], windows: vec![window(1, "A", 500, 500)] };
    let system = ProviderSnapshot { displays: vec![display(7)], windows: vec![window(3, "B", 300, 300)] };
    let c = ShareableContent::from_providers(Some(live), Some(system));
    assert_eq!(c.provider, CatalogProvider::System);
    assert_eq!(c.displays[0].id, 7);
    assert_eq!(c.windows.len(), 1);
    assert_eq!(c.windows[0].title, "B");
}

#[test]
fn placeholder_catalog_when_every_provider_fails() {
    let c = ShareableContent::from_providers(None, None);
    assert_eq!(c.provider, CatalogProvider::Placeholder);
    assert_eq!(c.displays.len(), 1);
    assert_eq!(c.displays[0].id, 1);
    assert_eq!(c.displays[0].name, "Built-in Display");
    assert_eq!((c.displays[0].width, c.displays[0].height), (1920, 1080));
    assert_eq!(c.windows.len(), 2);
    assert_eq!(c.windows[0].title, "Desktop");
    assert_eq!(c.windows[1].title, "Finder");
}

#[test]
fn find_by_id_returns_first_match() {
    let mut snap = live_snapshot();
    snap.displays.push(DisplayInfo { id: 2, name: "Second".to_string(), width: 1, height: 1 });
    let c = ShareableContent::from_providers(Some(snap), None);
    assert_eq!(c.find_display_by_id(2).unwrap().name, "Display 2");
    assert!(c.find_display_by_id(99).is_none());
    assert_eq!(c.find_window_by_id(13).unwrap().title, "Edge");
    assert!(c.find_window_by_id(11).is_none());
    assert!(c.find_window_by_id(999).is_none());
}

#[test]
fn get_displays_and_windows_copy_the_snapshot() {
    let c = ShareableContent::from_providers(Some(live_snapshot()), None);
    let d = c.get_displays();
    assert_eq!(d.len(), 2);
    assert_eq!(d[1].id, 2);
    let w = c.get_windows();
    assert_eq!(w.len(), 2);
    assert_eq!(w[0].title, "Editor");
}

#[test]
fn all_sources_lists_displays_then_windows() {
    let c = ShareableContent::from_providers(Some(live_snapshot()), None);
    let s = c.get_all_sources();
    let ids: Vec<&str> = s.iter().map(|x| x.id.as_str()).collect();
    assert_eq!(ids, vec!["display:1", "display:2", "window:10", "window:13"]);
    assert!(s[0].is_display);
    assert!(!s[2].is_display);
    assert_eq!(s[2].name, "Editor");
    assert_eq!((s[3].width, s[3].height), (100, 100));
}

#[test]
fn fallback_windows_are_desktop_and_finder() {
    let w = CoreGraphicsHelpers::get_fallback_windows();
    assert_eq!(w, vec![(1, "Desktop".to_string(), 1920, 1080), (2, "Finder".to_string(), 800, 600)]);
}

fn entry(number: Option<u32>, name: TitleField, owner: Option<&str>, bounds: Option<RawBounds>) -> RawWindowEntry {
    RawWindowEntry { number, name, owner_name: owner.map(|o| o.to_string()), bounds }
}

#[test]
fn window_entry_title_and_size_fallbacks() {
    let e = entry(Some(5), TitleField::Text("Mail".to_string()), Some("Mail.app"), None);
    let w = CoreGraphicsHelpers::extract_window_from_entry(&e, 0).unwrap();
    assert_eq!((w.id, w.title.as_str(), w.width, w.height), (5, "Mail", 800, 600));

    let e = entry(None, TitleField::Text(String::new()), Some("Owner"), Some(RawBounds { width: Some(300), height: None }));
    let w = CoreGraphicsHelpers::extract_window_from_entry(&e, 9).unwrap();
    assert_eq!((w.id, w.title.as_str(), w.width, w.height), (9, "Owner", 300, 600));

    let e = entry(Some(1), TitleField::NotText, Some("Owner"), None);
    let w = CoreGraphicsHelpers::extract_window_from_entry(&e, 0).unwrap();
    assert_eq!(w.title, "Unknown Window");

    let e = entry(Some(1), TitleField::Absent, None, None);
    let w = CoreGraphicsHelpers::extract_window_from_entry(&e, 0).unwrap();
    assert_eq!(w.title, "Unknown Window");

    let e = entry(Some(1), TitleField::Absent, Some(""), None);
    assert!(CoreGraphicsHelpers::extract_window_from_entry(&e, 0).is_none());

    let e = entry(Some(1), TitleField::Text("Small".to_string()), None, Some(RawBounds { width: Some(50), height: Some(500) }));
    assert!(CoreGraphicsHelpers::extract_window_from_entry(&e, 0).is_none());
}

#[test]
fn window_list_falls_back_to_placeholders() {
    let none = CoreGraphicsHelpers::get_window_list(None);
    assert_eq!(none.len(), 2);
    assert_eq!(none[0].title, "Desktop");

    let all_small = vec![entry(Some(1), TitleField::Text("x".to_string()), None, Some(RawBounds { width: Some(10), height: Some(10) }))];
    let w = CoreGraphicsHelpers::get_window_list(Some(&all_small));
    assert_eq!(w.len(), 2);
    assert_eq!(w[1].title, "Finder");

    let entries = vec![
        entry(Some(40), TitleField::Text("A".to_string()), None, None),
        entry(None, TitleField::Absent, Some("B"), None),
        entry(Some(42), TitleField::Text(String::new()), None, Some(RawBounds { width: Some(10), height: Some(10) })),
    ];
    let w = CoreGraphicsHelpers::get_window_list(Some(&entries));
    let got: Vec<(u32, &str)> = w.iter().map(|x| (x.id, x.title.as_str())).collect();
    assert_eq!(got, vec![(40, "A"), (1, "B")]);
}

#[test]
fn display_names_from_system_query() {
    assert_eq!(CoreGraphicsHelpers::display_from_query(0, 69733382, 3024, 1964).name, "Built-in Display");
    let d = CoreGraphicsHelpers::display_from_query(2, 5, 1920, 1080);
    assert_eq!(d.name, "Display 3");
    assert_eq!((d.id, d.width, d.height), (5, 1920, 1080));
    assert_eq!(CoreGraphicsHelpers::display_from_query(u32::MAX, 1, 1, 1).name, "Display 4294967296");
}

#[test]
fn parse_source_identifiers() {
    assert_eq!(parse_source_id("display:1").unwrap(), SourceSelector::Display(1));
    assert_eq!(parse_source_id("window:999").unwrap(), SourceSelector::Window(999));
    assert_eq!(parse_source_id("display:007").unwrap(), SourceSelector::Display(7));
    assert_eq!(parse_source_id("display:4294967295").unwrap(), SourceSelector::Display(u32::MAX));
    for bad in ["display:", "display:4294967296", "display:1a", "window:-1", "screen:1", "", "Display:1", "window 3", "display:+1"] {
        assert!(matches!(parse_source_id(bad), Err(SCError::InvalidConfiguration)), "{}", bad);
    }
}

#[test]
fn render_source_identifiers() {
    assert_eq!(source_id(SourceSelector::Display(1280)), "display:1280");
    assert_eq!(source_id(SourceSelector::Window(0)), "window:0");
    assert_eq!(source_id(SourceSelector::Window(u32::MAX)), "window:4294967295");
    let s = source_id(SourceSelector::Display(31));
    assert_eq!(parse_source_id(&s).unwrap(), SourceSelector::Display(31));
}

#[test]
fn live_content_names_and_cap() {
    let d = live_display(69733382, 3024, 1964);
    assert_eq!(d.name, "Display 69733382");
    let mut entries: Vec<LiveWindowEntry> = Vec::new();
    for i in 0..60u32 {
        let title = if i == 3 { None } else { Some(format!("w{}", i)) };
        entries.push(LiveWindowEntry { id: 100 + i, title, width: 640, height: 480 });
    }
    let w = live_windows(&entries);
    assert_eq!(w.len(), 50);
    assert_eq!(w[3].title, "Window 103");
    assert_eq!(w[49].id, 149);
    assert_eq!(w[0].title, "w0");
    assert!(live_windows(&Vec::new()).is_empty());
}
