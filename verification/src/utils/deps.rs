//! Distribution detection and install hints for missing shared libraries.
//!
//! The distribution is read from `/etc/os-release`; the caller reads the file
//! and hands its text over.
use vstd::prelude::*;

use crate::text::{
    chars_eq, chars_of, contains_str, eq_str, has_prefix, has_substr, join, join_chars, lines,
    lowercase, lowercase_chars, push_str, slice_chars, split_lines, starts_with, string_from,
    string_of, trim, trim_char, trim_char_chars, trim_chars, views,
};

verus! {

/// Recognized Linux distributions (used for tailored install hints).
#[derive(Debug, Clone, PartialEq, Eq)]
pub enum Distro {
    Ubuntu,
    Debian,
    Fedora,
    Rhel,
    Arch,
    MacOs,
    Unknown(String),
}

/// The display name of a distribution.
pub open spec fn distro_name(d: Distro) -> Seq<char> {
    match d {
        Distro::Ubuntu => "Ubuntu"@,
        Distro::Debian => "Debian"@,
        Distro::Fedora => "Fedora"@,
        Distro::Rhel => "RHEL/AlmaLinux"@,
        Distro::Arch => "Arch Linux"@,
        Distro::MacOs => "macOS"@,
        Distro::Unknown(id) => id@,
    }
}

impl Distro {
    /// The display name (`Ubuntu`, `RHEL/AlmaLinux`, ... or the os-release id).
    pub fn to_string(&self) -> (r: String)
        ensures
            r@ == distro_name(*self),
    {
        match self {
            Distro::Ubuntu => string_from("Ubuntu"),
            Distro::Debian => string_from("Debian"),
            Distro::Fedora => string_from("Fedora"),
            Distro::Rhel => string_from("RHEL/AlmaLinux"),
            Distro::Arch => string_from("Arch Linux"),
            Distro::MacOs => string_from("macOS"),
            Distro::Unknown(id) => id.clone(),
        }
    }
}

/// The value of a `KEY=value` line, without surrounding double quotes.
pub open spec fn field_value(line: Seq<char>, key: Seq<char>) -> Seq<char> {
    trim_char(line.skip(key.len() as int), '"')
}

/// `(ID, ID_LIKE, VERSION_ID)` after reading `ls` in order: the last line of
/// each key wins; `ID` and `ID_LIKE` are lowercased.
pub open spec fn os_release_fields(ls: Seq<Seq<char>>) -> (Seq<char>, Seq<char>, Seq<char>)
    decreases ls.len(),
{
    if ls.len() == 0 {
        (Seq::empty(), Seq::empty(), Seq::empty())
    } else {
        let (id, like, ver) = os_release_fields(ls.drop_last());
        let l = trim(ls.last());
        if has_prefix(l, "ID="@) {
            (lowercase(field_value(l, "ID="@)), like, ver)
        } else if has_prefix(l, "ID_LIKE="@) {
            (id, lowercase(field_value(l, "ID_LIKE="@)), ver)
        } else if has_prefix(l, "VERSION_ID="@) {
            (id, like, field_value(l, "VERSION_ID="@))
        } else {
            (id, like, ver)
        }
    }
}

/// The value after `key` in `l`, unquoted.
fn value_after(l: &[char], key: &[char]) -> (r: Vec<char>)
    requires
        key@.len() <= l@.len(),
    ensures
        r@ == field_value(l@, key@),
{
    let v = slice_chars(l, key.len(), l.len());
    assert(v@ =~= l@.skip(key@.len() as int));
    trim_char_chars(v.as_slice(), '"')
}

/// Parse `/etc/os-release` content into `(ID, ID_LIKE, VERSION_ID)`.
pub fn parse_os_release(content: &str) -> (r: (String, String, String))
    ensures
        (r.0@, r.1@, r.2@) == os_release_fields(lines(content@)),
{
    let cs = chars_of(content);
    let ls = split_lines(cs.as_slice());
    let k_id = chars_of("ID=");
    let k_like = chars_of("ID_LIKE=");
    let k_ver = chars_of("VERSION_ID=");
    let mut id = String::new();
    let mut id_like = String::new();
    let mut version_id = String::new();
    for i in 0..ls.len()
        invariant
            views(ls@) == lines(content@),
            k_id@ == "ID="@,
            k_like@ == "ID_LIKE="@,
            k_ver@ == "VERSION_ID="@,
            (id@, id_like@, version_id@) == os_release_fields(views(ls@).take(i as int)),
    {
        assert(views(ls@).take(i + 1).drop_last() =~= views(ls@).take(i as int));
        let l = trim_chars(ls[i].as_slice());
        if starts_with(l.as_slice(), k_id.as_slice()) {
            let v = value_after(l.as_slice(), k_id.as_slice());
            let lc = lowercase_chars(v.as_slice());
            id = string_of(lc.as_slice());
        } else if starts_with(l.as_slice(), k_like.as_slice()) {
            let v = value_after(l.as_slice(), k_like.as_slice());
            let lc = lowercase_chars(v.as_slice());
            id_like = string_of(lc.as_slice());
        } else if starts_with(l.as_slice(), k_ver.as_slice()) {
            let v = value_after(l.as_slice(), k_ver.as_slice());
            version_id = string_of(v.as_slice());
        }
    }
    assert(views(ls@).take(ls@.len() as int) =~= views(ls@));
    (id, id_like, version_id)
}

/// `d` is the distribution an os-release `ID` and `ID_LIKE` name: by `ID`,
/// then by `ID_LIKE`, else `Unknown` carrying the id (or `unknown`).
pub open spec fn names_distro(id: Seq<char>, like: Seq<char>, d: Distro) -> bool {
    if id == "ubuntu"@ {
        d == Distro::Ubuntu
    } else if id == "debian"@ {
        d == Distro::Debian
    } else if id == "fedora"@ {
        d == Distro::Fedora
    } else if id == "rhel"@ || id == "almalinux"@ || id == "rocky"@ || id == "centos"@ {
        d == Distro::Rhel
    } else if id == "arch"@ || id == "manjaro"@ || id == "endeavouros"@ {
        d == Distro::Arch
    } else if has_substr(like, "ubuntu"@) || has_substr(like, "debian"@) {
        d == Distro::Debian
    } else if has_substr(like, "fedora"@) || has_substr(like, "rhel"@) {
        d == Distro::Rhel
    } else if has_substr(like, "arch"@) {
        d == Distro::Arch
    } else if id.len() == 0 {
        (d matches Distro::Unknown(x) && x@ == "unknown"@)
    } else {
        (d matches Distro::Unknown(x) && x@ == id)
    }
}

/// `d` is the distribution an os-release text names.
pub open spec fn is_distro_of(content: Seq<char>, d: Distro) -> bool {
    let (id, like, _ver) = os_release_fields(lines(content));
    names_distro(id, like, d)
}

/// Determine the distribution from the text of an os-release file: by `ID`,
/// falling back to `ID_LIKE`, else `Unknown` with the id (or `unknown`).
pub fn distro_from_os_release(content: &str) -> (r: Distro)
    ensures
        is_distro_of(content@, r),
{
    let (id, id_like, _version_id) = parse_os_release(content);
    let i = chars_of(id.as_str());
    let l = chars_of(id_like.as_str());
    let i = i.as_slice();
    let l = l.as_slice();
    if eq_str(i, "ubuntu") {
        Distro::Ubuntu
    } else if eq_str(i, "debian") {
        Distro::Debian
    } else if eq_str(i, "fedora") {
        Distro::Fedora
    } else if eq_str(i, "rhel") || eq_str(i, "almalinux") || eq_str(i, "rocky") || eq_str(i, "centos") {
        Distro::Rhel
    } else if eq_str(i, "arch") || eq_str(i, "manjaro") || eq_str(i, "endeavouros") {
        Distro::Arch
    } else if contains_str(l, "ubuntu") || contains_str(l, "debian") {
        Distro::Debian
    } else if contains_str(l, "fedora") || contains_str(l, "rhel") {
        Distro::Rhel
    } else if contains_str(l, "arch") {
        Distro::Arch
    } else if i.len() == 0 {
        Distro::Unknown(string_from("unknown"))
    } else {
        Distro::Unknown(id)
    }
}

/// Detect the distribution: macOS when built for it, otherwise from the
/// os-release text (`None` when the file could not be read).
pub fn detect_distro(macos: bool, os_release: Option<&str>) -> (r: Distro)
    ensures
        macos ==> r == Distro::MacOs,
        !macos && os_release is None ==> (r matches Distro::Unknown(x) && x@ == "unknown"@),
        !macos && os_release is Some ==> is_distro_of(os_release.unwrap()@, r),
{
    if macos {
        return Distro::MacOs;
    }
    match os_release {
        Some(c) => distro_from_os_release(c),
        None => Distro::Unknown(string_from("unknown")),
    }
}

/// Which column of the package table a distribution uses.
pub open spec fn pick_package(d: Distro, deb: Seq<char>, rpm: Seq<char>, arch: Seq<char>) -> Seq<char> {
    match d {
        Distro::Fedora | Distro::Rhel => rpm,
        Distro::Arch => arch,
        _ => deb,
    }
}

/// The package providing a required library (by soname) on a distribution,
/// or `None` for a library outside the table.
pub open spec fn package_of(soname: Seq<char>, d: Distro) -> Option<Seq<char>> {
    if soname == "libfuse.so.2"@ {
        Some(pick_package(d, "libfuse2t64"@, "fuse-libs"@, "fuse2"@))
    } else if soname == "libsqlite3.so.0"@ {
        Some(pick_package(d, "libsqlite3-0"@, "sqlite-libs"@, "sqlite"@))
    } else if soname == "libssl.so.3"@ {
        Some(pick_package(d, "libssl3"@, "openssl-libs"@, "openssl"@))
    } else if soname == "libcrypto.so.3"@ {
        Some(pick_package(d, "libssl3"@, "openssl-libs"@, "openssl"@))
    } else if soname == "libz.so.1"@ {
        Some(pick_package(d, "zlib1g"@, "zlib"@, "zlib"@))
    } else if soname == "libudev.so.1"@ {
        Some(pick_package(d, "libudev1"@, "systemd-libs"@, "systemd-libs"@))
    } else {
        None
    }
}

/// The column of `d` among three package names.
fn pick<'a>(d: &Distro, deb: &'a str, rpm: &'a str, arch: &'a str) -> (r: &'a str)
    ensures
        r@ == pick_package(*d, deb@, rpm@, arch@),
{
    match d {
        Distro::Fedora | Distro::Rhel => rpm,
        Distro::Arch => arch,
        _ => deb,
    }
}

/// The package for a soname on `d`.
fn package_for(soname: &[char], d: &Distro) -> (r: Option<&'static str>)
    ensures
        crate::cli::args::opt_view(r) == package_of(soname@, *d),
{
    if eq_str(soname, "libfuse.so.2") {
        Some(pick(d, "libfuse2t64", "fuse-libs", "fuse2"))
    } else if eq_str(soname, "libsqlite3.so.0") {
        Some(pick(d, "libsqlite3-0", "sqlite-libs", "sqlite"))
    } else if eq_str(soname, "libssl.so.3") {
        Some(pick(d, "libssl3", "openssl-libs", "openssl"))
    } else if eq_str(soname, "libcrypto.so.3") {
        Some(pick(d, "libssl3", "openssl-libs", "openssl"))
    } else if eq_str(soname, "libz.so.1") {
        Some(pick(d, "zlib1g", "zlib", "zlib"))
    } else if eq_str(soname, "libudev.so.1") {
        Some(pick(d, "libudev1", "systemd-libs", "systemd-libs"))
    } else {
        None
    }
}

/// The packages to install for missing sonames `ms`, in order of first need,
/// each once.
pub open spec fn hint_packages(ms: Seq<Seq<char>>, d: Distro) -> Seq<Seq<char>>
    decreases ms.len(),
{
    if ms.len() == 0 {
        Seq::empty()
    } else {
        let ps = hint_packages(ms.drop_last(), d);
        match package_of(ms.last(), d) {
            Some(p) => if p.len() > 0 && !ps.contains(p) {
                ps.push(p)
            } else {
                ps
            },
            None => ps,
        }
    }
}

/// The install command prefix for a distribution.
pub open spec fn install_prefix(d: Distro) -> Seq<char> {
    match d {
        Distro::Ubuntu | Distro::Debian => "  sudo apt install "@,
        Distro::Fedora | Distro::Rhel => "  sudo dnf install "@,
        Distro::Arch => "  sudo pacman -S "@,
        _ => "  Install packages: "@,
    }
}

/// The install hint: empty when nothing is to be installed, otherwise the
/// distribution's install command and the packages separated by spaces.
pub open spec fn install_hint_text(d: Distro, ms: Seq<Seq<char>>) -> Seq<char> {
    let ps = hint_packages(ms, d);
    if ps.len() == 0 {
        Seq::empty()
    } else {
        install_prefix(d) + join(ps, " "@)
    }
}

/// Whether `ps` holds `p`.
fn holds(ps: &Vec<Vec<char>>, p: &[char]) -> (r: bool)
    ensures
        r == views(ps@).contains(p@),
{
    for i in 0..ps.len()
        invariant
            forall|j: int| 0 <= j < i ==> views(ps@)[j] != p@,
    {
        if chars_eq(ps[i].as_slice(), p) {
            assert(views(ps@)[i as int] == p@);
            return true;
        }
    }
    false
}

/// Build a one-line install command for the given missing library sonames.
pub fn get_install_hint(distro: &Distro, missing_sonames: &[&str]) -> (r: String)
    ensures
        r@ == install_hint_text(*distro, crate::utils::terminal::str_views(missing_sonames@)),
{
    let ghost ms = crate::utils::terminal::str_views(missing_sonames@);
    let mut packages: Vec<Vec<char>> = Vec::new();
    for i in 0..missing_sonames.len()
        invariant
            ms == crate::utils::terminal::str_views(missing_sonames@),
            views(packages@) == hint_packages(ms.take(i as int), *distro),
    {
        assert(ms.take(i + 1).drop_last() =~= ms.take(i as int));
        let s = chars_of(missing_sonames[i]);
        assert(s@ == ms[i as int]);
        match package_for(s.as_slice(), distro) {
            Some(pkg) => {
                let pv = chars_of(pkg);
                if pv.len() > 0 && !holds(&packages, pv.as_slice()) {
                    let ghost before = packages@;
                    packages.push(pv);
                    assert(views(packages@) =~= views(before).push(pkg@));
                }
            },
            None => {},
        }
    }
    assert(ms.take(missing_sonames@.len() as int) =~= ms);
    if packages.len() == 0 {
        return String::new();
    }
    let list = join_chars(&packages, " ");
    let mut r = match distro {
        Distro::Ubuntu | Distro::Debian => string_from("  sudo apt install "),
        Distro::Fedora | Distro::Rhel => string_from("  sudo dnf install "),
        Distro::Arch => string_from("  sudo pacman -S "),
        _ => string_from("  Install packages: "),
    };
    push_str(&mut r, list.as_str());
    r
}

/// No package is suggested twice.
pub proof fn law_install_hint_packages_distinct(ms: Seq<Seq<char>>, d: Distro)
    ensures
        forall|i: int, j: int|
            0 <= i < j < hint_packages(ms, d).len() ==> hint_packages(ms, d)[i] != hint_packages(
                ms,
                d,
            )[j],
    decreases ms.len(),
{
    if ms.len() > 0 {
        law_install_hint_packages_distinct(ms.drop_last(), d);
        let ps = hint_packages(ms.drop_last(), d);
        match package_of(ms.last(), d) {
            Some(p) => {
                if p.len() > 0 && !ps.contains(p) {
                    assert forall|i: int, j: int| 0 <= i < j < ps.push(p).len() implies ps.push(p)[i]
                        != ps.push(p)[j] by {
                        if j == ps.len() {
                            assert(ps.push(p)[j] == p);
                            assert(ps.push(p)[i] == ps[i]);
                        } else {
                            assert(ps.push(p)[i] == ps[i]);
                            assert(ps.push(p)[j] == ps[j]);
                        }
                    }
                }
            },
            None => {},
        }
    }
}

/// The advice for an OpenSSL failure, with the install hint when there is one.
pub open spec fn ssl_hint_text(hint: Seq<char>) -> Seq<char> {
    "This usually means OpenSSL 3.x is not installed or cannot be loaded."@ + (if hint.len() > 0 {
        "\n"@ + hint
    } else {
        Seq::empty()
    }) + "\n\nTip: Run 'pcloud --doctor' for a full dependency check."@
}

/// The hint for a pclsync init error code on distribution `distro`: advice
/// for OpenSSL (code 5) and database (code 3) failures, none otherwise.
pub fn init_error_hint(error_code: u32, distro: &Distro) -> (r: Option<String>)
    ensures
        error_code == 5 ==> (r matches Some(m) && m@ == ssl_hint_text(
            install_hint_text(*distro, seq!["libssl.so.3"@]),
        )),
        error_code == 3 ==> (r matches Some(m) && m@
            == "The SQLite database could not be opened. Check disk space and permissions.\n\nTip: Run 'pcloud --doctor' for a full dependency check."@),
        error_code != 5 && error_code != 3 ==> r is None,
{
    if error_code == 5 {
        let sonames: [&str; 1] = ["libssl.so.3"];
        let hint = get_install_hint(distro, sonames.as_slice());
        assert(crate::utils::terminal::str_views(sonames@) =~= seq!["libssl.so.3"@]);
        let mut msg = string_from("This usually means OpenSSL 3.x is not installed or cannot be loaded.");
        let hc = chars_of(hint.as_str());
        if hc.len() > 0 {
            push_str(&mut msg, "\n");
            push_str(&mut msg, hint.as_str());
        }
        push_str(&mut msg, "\n\nTip: Run 'pcloud --doctor' for a full dependency check.");
        Some(msg)
    } else if error_code == 3 {
        Some(
            string_from(
                "The SQLite database could not be opened. Check disk space and permissions.\n\nTip: Run 'pcloud --doctor' for a full dependency check.",
            ),
        )
    } else {
        None
    }
}

/// The package table of the required libraries: for each soname the Debian
/// package, the RPM one on Fedora and RHEL, and the Arch one; no other soname
/// has a package.
pub proof fn law_package_table(soname: Seq<char>, d: Distro)
    ensures
        package_of("libfuse.so.2"@, d) == Some(
            if d is Fedora || d is Rhel {
                "fuse-libs"@
            } else if d is Arch {
                "fuse2"@
            } else {
                "libfuse2t64"@
            },
        ),
        package_of("libsqlite3.so.0"@, d) == Some(
            if d is Fedora || d is Rhel {
                "sqlite-libs"@
            } else if d is Arch {
                "sqlite"@
            } else {
                "libsqlite3-0"@
            },
        ),
        package_of("libssl.so.3"@, d) == Some(
            if d is Fedora || d is Rhel {
                "openssl-libs"@
            } else if d is Arch {
                "openssl"@
            } else {
                "libssl3"@
            },
        ),
        package_of("libcrypto.so.3"@, d) == Some(
            if d is Fedora || d is Rhel {
                "openssl-libs"@
            } else if d is Arch {
                "openssl"@
            } else {
                "libssl3"@
            },
        ),
        package_of("libz.so.1"@, d) == Some(
            if d is Fedora || d is Rhel {
                "zlib"@
            } else if d is Arch {
                "zlib"@
            } else {
                "zlib1g"@
            },
        ),
        package_of("libudev.so.1"@, d) == Some(
            if d is Fedora || d is Rhel {
                "systemd-libs"@
            } else if d is Arch {
                "systemd-libs"@
            } else {
                "libudev1"@
            },
        ),
        package_of(soname, d) is Some <==> (soname == "libfuse.so.2"@ || soname == "libsqlite3.so.0"@
            || soname == "libssl.so.3"@ || soname == "libcrypto.so.3"@ || soname == "libz.so.1"@
            || soname == "libudev.so.1"@),
{
    reveal_strlit("libfuse.so.2");
    reveal_strlit("libsqlite3.so.0");
    reveal_strlit("libssl.so.3");
    reveal_strlit("libcrypto.so.3");
    reveal_strlit("libz.so.1");
    reveal_strlit("libudev.so.1");
    let names = seq![
        "libfuse.so.2"@,
        "libsqlite3.so.0"@,
        "libssl.so.3"@,
        "libcrypto.so.3"@,
        "libz.so.1"@,
        "libudev.so.1"@,
    ];
    // The sonames differ in their fourth or fifth character.
    assert forall|i: int, j: int| 0 <= i < j < 6 implies #[trigger] names[i] != #[trigger] names[j] by {
        if names[i][3] == names[j][3] {
            assert(names[i][4] != names[j][4]);
        }
    }
    assert(names[0] != names[2] && names[1] != names[2] && names[0] != names[3] && names[1] != names[3]
        && names[2] != names[3] && names[0] != names[4] && names[1] != names[4] && names[2] != names[4]
        && names[3] != names[4] && names[0] != names[5] && names[1] != names[5] && names[2] != names[5]
        && names[3] != names[5] && names[4] != names[5]);
}

} // verus!
