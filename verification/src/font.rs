//! Where a font with Chinese glyphs may be found on a machine.
//!
//! The candidates are computed from what the embedding program found out
//! about the machine; which of them exist is for it to try.

use vstd::prelude::*;
use vstd::string::{StrSliceExecFns, StringExecFns};

verus! {

/// The operating systems that are told apart.
#[derive(Debug, Clone, Copy, PartialEq, Eq, Structural)]
pub enum Platform {
    Windows,
    MacOs,
    Linux,
    Other,
}

/// What is known of the machine that the search depends on.
pub struct FontEnvironment {
    /// The root directory of Windows, where the environment names one.
    pub system_root: Option<String>,
    /// The home directory of the user, where it is known.
    pub home: Option<String>,
    /// For each directory of `linux_font_dirs`, at the same index, the
    /// directories directly below it.
    pub subdirectories: Vec<Vec<String>>,
}

/// The character that separates the parts of a path.
#[derive(Debug, Clone, Copy, PartialEq, Eq, Structural)]
pub enum Separator {
    Slash,
    Backslash,
}

impl Separator {
    pub open spec fn spec_char(self) -> char {
        match self {
            Separator::Slash => '/',
            Separator::Backslash => '\\',
        }
    }

    /// The separator as a character.
    pub fn as_char(self) -> (c: char)
        ensures
            c == self.spec_char(),
    {
        match self {
            Separator::Slash => '/',
            Separator::Backslash => '\\',
        }
    }

    /// The separator as text of one character.
    pub fn as_str(self) -> (text: &'static str)
        ensures
            text@ == seq![self.spec_char()],
    {
        match self {
            Separator::Slash => {
                proof {
                    reveal_strlit("/");
                }
                assert("/"@ =~= seq!['/']);
                "/"
            },
            Separator::Backslash => {
                proof {
                    reveal_strlit("\\");
                }
                assert("\\"@ =~= seq!['\\']);
                "\\"
            },
        }
    }
}

/// `name` below `dir`, with the separator between them unless `dir` is empty
/// or ends with it.
pub open spec fn spec_join(dir: Seq<char>, name: Seq<char>, separator: Separator) -> Seq<char> {
    if dir.len() == 0 || dir.last() == separator.spec_char() {
        dir + name
    } else {
        dir.push(separator.spec_char()) + name
    }
}

/// `name` below `dir`.
pub fn join(dir: &str, name: &str, separator: Separator) -> (path: String)
    ensures
        path@ == spec_join(dir@, name@, separator),
{
    let mut path = String::from_str(dir);
    let length = dir.unicode_len();
    if length > 0 && dir.get_char(length - 1) != separator.as_char() {
        path.append(separator.as_str());
        assert(path@ =~= dir@.push(separator.spec_char()));
    }
    path.append(name);
    path
}

/// The file names of the fonts looked for on Linux.
pub open spec fn spec_linux_font_names() -> Seq<Seq<char>> {
    seq![
        "NotoSansCJK-Regular.ttc"@,
        "NotoSansCJK-sc-Regular.otf"@,
        "NotoSansCJKsc-Regular.otf"@,
        "wqy-zenhei.ttc"@,
        "wqy-microhei.ttc"@,
    ]
}

/// The fonts looked for directly in `dir`.
pub open spec fn spec_fonts_in(dir: Seq<char>) -> Seq<Seq<char>> {
    spec_linux_font_names().map_values(|name: Seq<char>| spec_join(dir, name, Separator::Slash))
}

/// The fonts looked for in each of `dirs`, in order.
pub open spec fn spec_fonts_in_each(dirs: Seq<String>) -> Seq<Seq<char>>
    decreases dirs.len(),
{
    if dirs.len() == 0 {
        Seq::empty()
    } else {
        spec_fonts_in_each(dirs.drop_last()) + spec_fonts_in(dirs.last()@)
    }
}

/// The views of a sequence of strings.
pub open spec fn spec_texts(paths: Seq<String>) -> Seq<Seq<char>> {
    paths.map_values(|p: String| p@)
}

fn push_fonts_in(out: &mut Vec<String>, dir: &str)
    ensures
        spec_texts(final(out)@) == spec_texts(old(out)@) + spec_fonts_in(dir@),
{
    let ghost before = spec_texts(out@);
    out.push(join(dir, "NotoSansCJK-Regular.ttc", Separator::Slash));
    out.push(join(dir, "NotoSansCJK-sc-Regular.otf", Separator::Slash));
    out.push(join(dir, "NotoSansCJKsc-Regular.otf", Separator::Slash));
    out.push(join(dir, "wqy-zenhei.ttc", Separator::Slash));
    out.push(join(dir, "wqy-microhei.ttc", Separator::Slash));
    assert(spec_texts(out@) =~= before + spec_fonts_in(dir@));
}

/// The directories searched on Linux: four of the system, and two of the
/// user where the home directory is known.
pub open spec fn spec_linux_font_dirs(home: Option<String>) -> Seq<Seq<char>> {
    let system = seq![
        "/usr/share/fonts"@,
        "/usr/share/fonts/truetype"@,
        "/usr/share/fonts/opentype"@,
        "/usr/local/share/fonts"@,
    ];
    match home {
        Some(h) => system + seq![
            spec_join(h@, ".local/share/fonts"@, Separator::Slash),
            spec_join(h@, ".fonts"@, Separator::Slash),
        ],
        None => system,
    }
}

/// The directories searched on Linux.
pub fn linux_font_dirs(home: &Option<String>) -> (dirs: Vec<String>)
    ensures
        spec_texts(dirs@) == spec_linux_font_dirs(*home),
{
    let mut dirs: Vec<String> = Vec::new();
    dirs.push(String::from_str("/usr/share/fonts"));
    dirs.push(String::from_str("/usr/share/fonts/truetype"));
    dirs.push(String::from_str("/usr/share/fonts/opentype"));
    dirs.push(String::from_str("/usr/local/share/fonts"));
    match home {
        Some(h) => {
            dirs.push(join(h.as_str(), ".local/share/fonts", Separator::Slash));
            dirs.push(join(h.as_str(), ".fonts", Separator::Slash));
        },
        None => {},
    }
    assert(spec_texts(dirs@) =~= spec_linux_font_dirs(*home));
    dirs
}

/// The directories directly below the font directory at `index`; none where
/// the environment lists none for it.
pub open spec fn spec_subdirectories_at(subdirectories: Seq<Vec<String>>, index: int) -> Seq<
    String,
> {
    if 0 <= index < subdirectories.len() {
        subdirectories[index]@
    } else {
        Seq::empty()
    }
}

/// The candidates on Linux for the first `count` font directories: for each
/// directory the fonts directly in it, then those in each directory below
/// it.
pub open spec fn spec_linux_fonts_upto(
    dirs: Seq<Seq<char>>,
    subdirectories: Seq<Vec<String>>,
    count: nat,
) -> Seq<Seq<char>>
    decreases count,
{
    if count == 0 {
        Seq::empty()
    } else {
        spec_linux_fonts_upto(dirs, subdirectories, (count - 1) as nat) + spec_fonts_in(
            dirs[count - 1],
        ) + spec_fonts_in_each(spec_subdirectories_at(subdirectories, count - 1))
    }
}

/// The candidates on Linux.
pub open spec fn spec_linux_fonts(home: Option<String>, subdirectories: Seq<Vec<String>>) -> Seq<
    Seq<char>,
> {
    spec_linux_fonts_upto(
        spec_linux_font_dirs(home),
        subdirectories,
        spec_linux_font_dirs(home).len(),
    )
}

/// The candidates on Linux: in every font directory, and in every directory
/// directly below one, the five fonts looked for.
pub fn get_linux_chinese_fonts(home: &Option<String>, subdirectories: &Vec<Vec<String>>) -> (fonts:
    Vec<String>)
    ensures
        spec_texts(fonts@) == spec_linux_fonts(*home, subdirectories@),
        fonts.len() >= 20,
{
    let dirs = linux_font_dirs(home);
    let ghost dir_texts = spec_linux_font_dirs(*home);
    let mut fonts: Vec<String> = Vec::new();
    let mut i: usize = 0;
    assert(spec_texts(fonts@) =~= Seq::<Seq<char>>::empty());
    while i < dirs.len()
        invariant
            i <= dirs.len(),
            spec_texts(dirs@) == dir_texts,
            dirs.len() == dir_texts.len(),
            spec_texts(fonts@) == spec_linux_fonts_upto(dir_texts, subdirectories@, i as nat),
            fonts.len() >= 5 * i,
        decreases dirs.len() - i,
    {
        assert(dir_texts[i as int] == dirs@[i as int]@);
        push_fonts_in(&mut fonts, dirs[i].as_str());
        assert(spec_fonts_in(dir_texts[i as int]).len() == 5);
        assert(fonts.len() == spec_texts(fonts@).len());
        if i < subdirectories.len() {
            let below = &subdirectories[i];
            let ghost start = spec_texts(fonts@);
            let mut j: usize = 0;
            assert(below@.take(0) =~= Seq::<String>::empty());
            assert(spec_texts(fonts@) =~= start + spec_fonts_in_each(below@.take(0)));
            while j < below.len()
                invariant
                    j <= below.len(),
                    spec_texts(fonts@) == start + spec_fonts_in_each(below@.take(j as int)),
                    fonts.len() >= 5 * (i + 1),
                decreases below.len() - j,
            {
                let ghost earlier = fonts.len();
                push_fonts_in(&mut fonts, below[j].as_str());
                proof {
                    assert(below@.take(j + 1).drop_last() =~= below@.take(j as int));
                    assert(below@.take(j + 1).last() == below@[j as int]);
                    assert(spec_texts(fonts@) =~= start + spec_fonts_in_each(below@.take(j + 1)));
                    assert(spec_fonts_in(below@[j as int]@).len() == 5);
                    assert(fonts.len() == spec_texts(fonts@).len());
                    assert(earlier == (start + spec_fonts_in_each(below@.take(j as int))).len());
                }
                j += 1;
            }
            assert(below@.take(below.len() as int) =~= below@);
        } else {
            assert(spec_texts(fonts@) =~= spec_texts(fonts@) + spec_fonts_in_each(
                Seq::<String>::empty(),
            ));
        }
        i += 1;
    }
    fonts
}

/// The directory of fonts on Windows: `Fonts` below the root directory of the
/// system, or below `C:\Windows` where the root is not known.
pub open spec fn spec_windows_font_dir(system_root: Option<String>) -> Seq<char> {
    match system_root {
        Some(root) => spec_join(root@, "Fonts"@, Separator::Backslash),
        None => "C:\\Windows\\Fonts"@,
    }
}

/// The file names of the fonts looked for on Windows.
pub open spec fn spec_windows_font_names() -> Seq<Seq<char>> {
    seq![
        "msyh.ttc"@,
        "msyhbd.ttc"@,
        "msyhl.ttc"@,
        "msjh.ttc"@,
        "msjhbd.ttc"@,
        "simhei.ttf"@,
        "simsun.ttc"@,
    ]
}

/// The candidates on Windows.
pub open spec fn spec_windows_fonts(system_root: Option<String>) -> Seq<Seq<char>> {
    spec_windows_font_names().map_values(
        |name: Seq<char>| spec_join(spec_windows_font_dir(system_root), name, Separator::Backslash),
    )
}

/// The candidates on Windows: seven fonts in the font directory of the
/// system.
pub fn get_windows_chinese_fonts(system_root: &Option<String>) -> (fonts: Vec<String>)
    ensures
        spec_texts(fonts@) == spec_windows_fonts(*system_root),
        fonts.len() == 7,
{
    let dir = match system_root {
        Some(root) => join(root.as_str(), "Fonts", Separator::Backslash),
        None => String::from_str("C:\\Windows\\Fonts"),
    };
    let mut fonts: Vec<String> = Vec::new();
    fonts.push(join(dir.as_str(), "msyh.ttc", Separator::Backslash));
    fonts.push(join(dir.as_str(), "msyhbd.ttc", Separator::Backslash));
    fonts.push(join(dir.as_str(), "msyhl.ttc", Separator::Backslash));
    fonts.push(join(dir.as_str(), "msjh.ttc", Separator::Backslash));
    fonts.push(join(dir.as_str(), "msjhbd.ttc", Separator::Backslash));
    fonts.push(join(dir.as_str(), "simhei.ttf", Separator::Backslash));
    fonts.push(join(dir.as_str(), "simsun.ttc", Separator::Backslash));
    assert(spec_texts(fonts@) =~= spec_windows_fonts(*system_root));
    fonts
}

/// The candidates on macOS: three fonts of the system, and one of the user
/// where the home directory is known.
pub open spec fn spec_macos_fonts(home: Option<String>) -> Seq<Seq<char>> {
    let system = seq![
        "/System/Library/Fonts/PingFang.ttc"@,
        "/System/Library/Fonts/STHeiti Light.ttc"@,
        "/System/Library/Fonts/STHeiti Medium.ttc"@,
    ];
    match home {
        Some(h) => system.push(
            spec_join(spec_join(h@, "Library/Fonts"@, Separator::Slash), "PingFang.ttc"@, Separator::Slash),
        ),
        None => system,
    }
}

/// The candidates on macOS.
pub fn get_macos_chinese_fonts(home: &Option<String>) -> (fonts: Vec<String>)
    ensures
        spec_texts(fonts@) == spec_macos_fonts(*home),
        fonts.len() >= 3,
{
    let mut fonts: Vec<String> = Vec::new();
    fonts.push(String::from_str("/System/Library/Fonts/PingFang.ttc"));
    fonts.push(String::from_str("/System/Library/Fonts/STHeiti Light.ttc"));
    fonts.push(String::from_str("/System/Library/Fonts/STHeiti Medium.ttc"));
    match home {
        Some(h) => {
            let dir = join(h.as_str(), "Library/Fonts", Separator::Slash);
            fonts.push(join(dir.as_str(), "PingFang.ttc", Separator::Slash));
        },
        None => {},
    }
    assert(spec_texts(fonts@) =~= spec_macos_fonts(*home));
    fonts
}

/// The candidates on `platform`; none on a platform that is not known.
pub open spec fn spec_system_fonts(platform: Platform, env: FontEnvironment) -> Seq<Seq<char>> {
    match platform {
        Platform::Windows => spec_windows_fonts(env.system_root),
        Platform::MacOs => spec_macos_fonts(env.home),
        Platform::Linux => spec_linux_fonts(env.home, env.subdirectories@),
        Platform::Other => Seq::empty(),
    }
}

/// The places where a font with Chinese glyphs is looked for on `platform`,
/// in the order in which they are tried.
pub fn get_system_chinese_fonts(platform: Platform, env: &FontEnvironment) -> (fonts: Vec<String>)
    ensures
        spec_texts(fonts@) == spec_system_fonts(platform, *env),
        platform != Platform::Other ==> fonts.len() >= 3,
{
    match platform {
        Platform::Windows => get_windows_chinese_fonts(&env.system_root),
        Platform::MacOs => get_macos_chinese_fonts(&env.home),
        Platform::Linux => get_linux_chinese_fonts(&env.home, &env.subdirectories),
        Platform::Other => {
            let fonts: Vec<String> = Vec::new();
            assert(spec_texts(fonts@) =~= Seq::<Seq<char>>::empty());
            fonts
        },
    }
}

} // verus!
