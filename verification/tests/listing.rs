use dispctl::display::Display;
use dispctl::display::ModeRecord;
use dispctl::render::render_entry;
use dispctl::render::render_list;
use dispctl::render::u64_to_string;

fn display(name: &str, refresh_rate: u32, width: u32, height: u32) -> Display {
    let mode = ModeRecord {
        fields: 0,
        refresh_rate,
        width,
        height,
        x: 0,
        y: 0,
    };
    Display::new(name.to_string(), Ok(mode)).unwrap()
}

#[test]
fn decimal_rendering_is_exact() {
    assert_eq!(u64_to_string(0), "0");
    assert_eq!(u64_to_string(9), "9");
    assert_eq!(u64_to_string(10), "10");
    assert_eq!(u64_to_string(144), "144");
    assert_eq!(u64_to_string(1920), "1920");
    assert_eq!(u64_to_string(4294967295), "4294967295");
}

#[test]
fn entry_shows_name_index_rate_and_size() {
    let d = display("\\\\.\\DISPLAY1", 60, 1920, 1080);
    let entry = render_entry(&d, 0);
    assert_eq!(
        entry,
        "\\\\.\\DISPLAY1:\n    Index: 0\n    Refresh Rate: 60\n    Size: 1920x1080\n"
    );
}

#[test]
fn two_display_listing_has_blank_line_between_and_none_trailing() {
    let displays = vec![
        display("\\\\.\\DISPLAY1", 60, 1920, 1080),
        display("\\\\.\\DISPLAY2", 144, 2560, 1440),
    ];
    let out = render_list(&displays);
    assert_eq!(
        out,
        "\\\\.\\DISPLAY1:\n    Index: 0\n    Refresh Rate: 60\n    Size: 1920x1080\n\
         \n\
         \\\\.\\DISPLAY2:\n    Index: 1\n    Refresh Rate: 144\n    Size: 2560x1440\n"
    );
    assert!(out.contains("\n\n"));
    assert!(!out.ends_with("\n\n"));
}

#[test]
fn empty_listing_is_empty_text() {
    let displays: Vec<Display> = Vec::new();
    assert_eq!(render_list(&displays), "");
}

#[test]
fn single_display_listing_has_no_separator() {
    let displays = vec![display("\\\\.\\DISPLAY1", 75, 800, 600)];
    let out = render_list(&displays);
    assert_eq!(
        out,
        "\\\\.\\DISPLAY1:\n    Index: 0\n    Refresh Rate: 75\n    Size: 800x600\n"
    );
    assert!(!out.contains("\n\n"));
}
