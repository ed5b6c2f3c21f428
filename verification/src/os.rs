//! Platform descriptor: operating-system family, distribution, version and architecture.

use vstd::prelude::*;
use crate::error::InstallError;
use crate::text::{chars_of, has_prefix, occurs_within, text_eq, Trim, trim_bounds, trimmed};

verus! {

/// Operating-system family of the host.
#[derive(Debug, Clone, Copy, PartialEq, Eq, Structural)]
pub enum OsFamily {
    Linux,
    Windows,
    MacOs,
    Unknown,
}

/// Snapshot of the host platform, taken once per run.
#[derive(Debug, Clone, PartialEq, Eq)]
pub struct OsInfo {
    /// Distribution identity, such as `ubuntu` or `alpine`.
    pub name: String,
    pub version: String,
    pub arch: String,
    pub family: OsFamily,
}

/// Mathematical value of an [`OsInfo`].
pub struct OsModel {
    pub name: Seq<char>,
    pub version: Seq<char>,
    pub arch: Seq<char>,
    pub family: OsFamily,
}

impl View for OsInfo {
    type V = OsModel;

    open spec fn view(&self) -> OsModel {
        OsModel {
            name: self.name@,
            version: self.version@,
            arch: self.arch@,
            family: self.family,
        }
    }
}

impl OsInfo {
    /// A copy of this descriptor.
    pub fn duplicate(&self) -> (copy: OsInfo)
        ensures
            copy@ == self@,
    {
        OsInfo {
            name: self.name.clone(),
            version: self.version.clone(),
            arch: self.arch.clone(),
            family: self.family,
        }
    }
}

/// Number of characters before the first line feed of `text`, or its length if it has none.
pub open spec fn line_len(text: Seq<char>) -> nat
    decreases text.len(),
{
    if text.len() == 0 || text[0] == '\n' {
        0
    } else {
        1 + line_len(text.drop_first())
    }
}

/// A line without the carriage return that may end it.
pub open spec fn without_cr(line: Seq<char>) -> Seq<char> {
    if line.len() > 0 && line.last() == '\r' {
        line.drop_last()
    } else {
        line
    }
}

/// The value of a `KEY=value` assignment in operating-system metadata: what follows
/// `key` on the last line that begins with it, without surrounding double quotes, or
/// `current` when no line begins with `key`.
pub open spec fn last_field(text: Seq<char>, key: Seq<char>, current: Seq<char>) -> Seq<char>
    decreases text.len(),
{
    if text.len() == 0 {
        current
    } else {
        let n = line_len(text);
        let line = without_cr(text.take(n as int));
        let next = if has_prefix(line, key) {
            trimmed(line.skip(key.len() as int), Trim::Quotes)
        } else {
            current
        };
        if n >= text.len() {
            next
        } else {
            last_field(text.skip(n as int + 1), key, next)
        }
    }
}

/// Reads the value of the assignment to `key` from operating-system metadata.
pub fn read_field(text: &str, key: &str, default: &str) -> (value: String)
    ensures
        value@ == last_field(text@, key@, default@),
{
    let chars = chars_of(text);
    let k = chars_of(key);
    let n: usize = chars.len();
    let mut from: usize = 0;
    let mut found: bool = false;
    let mut lo: usize = 0;
    let mut hi: usize = 0;
    let ghost mut current: Seq<char> = default@;
    assert(chars@.skip(0) =~= chars@);
    while from < n
        invariant
            n == chars@.len(),
            chars@ == text@,
            k@ == key@,
            from <= n,
            lo <= hi <= n,
            current == if found {
                chars@.subrange(lo as int, hi as int)
            } else {
                default@
            },
            last_field(text@, key@, default@) == if from < n {
                last_field(chars@.skip(from as int), key@, current)
            } else {
                current
            },
        decreases n - from,
    {
        let ghost rest = chars@.skip(from as int);
        let ghost before = current;
        let mut end: usize = from;
        while end < n && chars[end] != '\n'
            invariant
                from <= end <= n,
                n == chars@.len(),
                line_len(chars@.skip(from as int)) == (end - from) + line_len(
                    chars@.skip(end as int),
                ),
            decreases n - end,
        {
            assert(chars@.skip(end as int).drop_first() =~= chars@.skip(end + 1));
            end += 1;
        }
        assert(line_len(rest) == end - from) by {
            if end < n {
                assert(chars@.skip(end as int)[0] == '\n');
            } else {
                assert(chars@.skip(end as int).len() == 0);
            }
        }
        let stop: usize = if end > from && chars[end - 1] == '\r' {
            end - 1
        } else {
            end
        };
        let ghost line = without_cr(rest.take((end - from) as int));
        assert(line =~= chars@.subrange(from as int, stop as int)) by {
            assert(rest.take((end - from) as int) =~= chars@.subrange(from as int, end as int));
        }
        let hit = occurs_within(&chars, from, stop, &k);
        assert(hit == has_prefix(line, key@)) by {
            if from + k@.len() <= stop {
                assert(line.subrange(0, k@.len() as int) =~= chars@.subrange(
                    from as int,
                    from + k@.len(),
                ));
            }
        }
        if hit {
            let (a, b) = trim_bounds(&chars, from + k.len(), stop, Trim::Quotes);
            assert(line.skip(k@.len() as int) =~= chars@.subrange(
                from + k@.len(),
                stop as int,
            ));
            found = true;
            lo = a;
            hi = b;
            proof {
                current = chars@.subrange(a as int, b as int);
            }
        }
        assert(last_field(rest, key@, before) == if end >= n {
            current
        } else {
            last_field(rest.skip((end - from) + 1), key@, current)
        });
        if end >= n {
            from = n;
        } else {
            assert(rest.skip((end - from) + 1) =~= chars@.skip(end + 1));
            from = end + 1;
            proof {
                if from >= n {
                    assert(chars@.skip(from as int).len() == 0);
                }
            }
        }
    }
    if found {
        String::from_str(text.substring_char(lo, hi))
    } else {
        String::from_str(default)
    }
}

/// The descriptor of a Linux host. The distribution defaults to `linux` and the version
/// to `unknown` where the metadata is absent or does not name them.
pub open spec fn linux_info(arch: Seq<char>, os_release: Option<Seq<char>>) -> OsModel {
    match os_release {
        Some(text) => OsModel {
            name: last_field(text, "ID="@, "linux"@),
            version: last_field(text, "VERSION_ID="@, "unknown"@),
            arch,
            family: OsFamily::Linux,
        },
        None => OsModel { name: "linux"@, version: "unknown"@, arch, family: OsFamily::Linux },
    }
}

/// The descriptor of a Windows host.
pub open spec fn windows_info(arch: Seq<char>) -> OsModel {
    OsModel { name: "windows"@, version: "unknown"@, arch, family: OsFamily::Windows }
}

/// The descriptor of a macOS host.
pub open spec fn macos_info(arch: Seq<char>) -> OsModel {
    OsModel { name: "macos"@, version: "unknown"@, arch, family: OsFamily::MacOs }
}

/// The descriptor for a host whose operating system is named `target_os`, if that
/// operating system is supported.
pub open spec fn detected(target_os: Seq<char>, arch: Seq<char>, os_release: Option<Seq<char>>)
    -> Option<OsModel> {
    if target_os == "linux"@ {
        Some(linux_info(arch, os_release))
    } else if target_os == "windows"@ {
        Some(windows_info(arch))
    } else if target_os == "macos"@ {
        Some(macos_info(arch))
    } else {
        None
    }
}

/// The character sequence of an optional text.
pub open spec fn text_of(t: Option<&str>) -> Option<Seq<char>> {
    match t {
        Some(s) => Some(s@),
        None => None,
    }
}

/// Describes the host from the name of its operating system, its architecture and the
/// text of its operating-system metadata file, where one could be read.
pub fn detect_os(target_os: &str, arch: String, os_release: Option<&str>) -> (r: Result<
    OsInfo,
    InstallError,
>)
    ensures
        match detected(target_os@, arch@, text_of(os_release)) {
            Some(info) => r is Ok && r->Ok_0@ == info,
            None => r is Err && r->Err_0@ == crate::error::ErrorModel::UnsupportedPlatform,
        },
{
    if text_eq(target_os, "linux") {
        detect_linux_info(arch, os_release)
    } else if text_eq(target_os, "windows") {
        detect_windows_info(arch)
    } else if text_eq(target_os, "macos") {
        detect_macos_info(arch)
    } else {
        Err(InstallError::UnsupportedPlatform)
    }
}

/// Describes a Linux host from its metadata; never fails.
pub fn detect_linux_info(arch: String, os_release: Option<&str>) -> (r: Result<
    OsInfo,
    InstallError,
>)
    ensures
        r is Ok,
        r->Ok_0@ == linux_info(arch@, text_of(os_release)),
{
    match os_release {
        Some(text) => Ok(
            OsInfo {
                name: read_field(text, "ID=", "linux"),
                version: read_field(text, "VERSION_ID=", "unknown"),
                arch,
                family: OsFamily::Linux,
            },
        ),
        None => Ok(
            OsInfo {
                name: String::from_str("linux"),
                version: String::from_str("unknown"),
                arch,
                family: OsFamily::Linux,
            },
        ),
    }
}

/// Describes a Windows host; never fails.
pub fn detect_windows_info(arch: String) -> (r: Result<OsInfo, InstallError>)
    ensures
        r is Ok,
        r->Ok_0@ == windows_info(arch@),
{
    Ok(
        OsInfo {
            name: String::from_str("windows"),
            version: String::from_str("unknown"),
            arch,
            family: OsFamily::Windows,
        },
    )
}

/// Describes a macOS host; never fails.
pub fn detect_macos_info(arch: String) -> (r: Result<OsInfo, InstallError>)
    ensures
        r is Ok,
        r->Ok_0@ == macos_info(arch@),
{
    Ok(
        OsInfo {
            name: String::from_str("macos"),
            version: String::from_str("unknown"),
            arch,
            family: OsFamily::MacOs,
        },
    )
}

} // verus!
