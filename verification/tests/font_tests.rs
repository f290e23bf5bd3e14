use turbohash::font::{
    get_linux_chinese_fonts, get_macos_chinese_fonts, get_system_chinese_fonts,
    get_windows_chinese_fonts, join, linux_font_dirs, FontEnvironment, Platform, Separator,
};

fn empty_environment() -> FontEnvironment {
    FontEnvironment { system_root: None, home: None, subdirectories: Vec::new() }
}

#[test]
fn test_get_system_chinese_fonts() {
    let fonts = get_system_chinese_fonts(Platform::Linux, &empty_environment());
    assert!(!fonts.is_empty());
    let fonts = get_system_chinese_fonts(Platform::Windows, &empty_environment());
    assert!(!fonts.is_empty());
    let fonts = get_system_chinese_fonts(Platform::MacOs, &empty_environment());
    assert!(!fonts.is_empty());
}

#[test]
fn unknown_platform_has_no_candidates() {
    assert!(get_system_chinese_fonts(Platform::Other, &empty_environment()).is_empty());
}

#[test]
fn join_adds_one_separator() {
    assert_eq!(join("/usr", "fonts", Separator::Slash), "/usr/fonts");
    assert_eq!(join("/usr/", "fonts", Separator::Slash), "/usr/fonts");
    assert_eq!(join("", "fonts", Separator::Slash), "fonts");
    assert_eq!(join("C:\\Windows", "Fonts", Separator::Backslash), "C:\\Windows\\Fonts");
}

#[test]
fn windows_candidates() {
    let fonts = get_windows_chinese_fonts(&None);
    assert_eq!(
        fonts,
        vec![
            "C:\\Windows\\Fonts\\msyh.ttc",
            "C:\\Windows\\Fonts\\msyhbd.ttc",
            "C:\\Windows\\Fonts\\msyhl.ttc",
            "C:\\Windows\\Fonts\\msjh.ttc",
            "C:\\Windows\\Fonts\\msjhbd.ttc",
            "C:\\Windows\\Fonts\\simhei.ttf",
            "C:\\Windows\\Fonts\\simsun.ttc",
        ]
    );
    let fonts = get_windows_chinese_fonts(&Some("D:\\Win".to_string()));
    assert_eq!(fonts[0], "D:\\Win\\Fonts\\msyh.ttc");
    assert_eq!(fonts.len(), 7);
}

#[test]
fn macos_candidates() {
    assert_eq!(
        get_macos_chinese_fonts(&None),
        vec![
            "/System/Library/Fonts/PingFang.ttc",
            "/System/Library/Fonts/STHeiti Light.ttc",
            "/System/Library/Fonts/STHeiti Medium.ttc",
        ]
    );
    let fonts = get_macos_chinese_fonts(&Some("/Users/me".to_string()));
    assert_eq!(fonts.len(), 4);
    assert_eq!(fonts[3], "/Users/me/Library/Fonts/PingFang.ttc");
}

#[test]
fn linux_directories() {
    assert_eq!(
        linux_font_dirs(&None),
        vec![
            "/usr/share/fonts",
            "/usr/share/fonts/truetype",
            "/usr/share/fonts/opentype",
            "/usr/local/share/fonts",
        ]
    );
    let dirs = linux_font_dirs(&Some("/home/me".to_string()));
    assert_eq!(dirs.len(), 6);
    assert_eq!(dirs[4], "/home/me/.local/share/fonts");
    assert_eq!(dirs[5], "/home/me/.fonts");
}

#[test]
fn linux_candidates_cover_subdirectories() {
    let fonts = get_linux_chinese_fonts(&None, &Vec::new());
    assert_eq!(fonts.len(), 20);
    assert_eq!(fonts[0], "/usr/share/fonts/NotoSansCJK-Regular.ttc");
    assert_eq!(fonts[4], "/usr/share/fonts/wqy-microhei.ttc");
    assert_eq!(fonts[5], "/usr/share/fonts/truetype/NotoSansCJK-Regular.ttc");

    let below = vec![vec!["/usr/share/fonts/noto".to_string()], vec![]];
    let fonts = get_linux_chinese_fonts(&Some("/home/me".to_string()), &below);
    assert_eq!(fonts.len(), 35);
    assert_eq!(fonts[5], "/usr/share/fonts/noto/NotoSansCJK-Regular.ttc");
    assert_eq!(fonts[9], "/usr/share/fonts/noto/wqy-microhei.ttc");
    assert_eq!(fonts[10], "/usr/share/fonts/truetype/NotoSansCJK-Regular.ttc");
    assert_eq!(fonts[34], "/home/me/.fonts/wqy-microhei.ttc");
}
