//! Client updates: which release to offer, what to accept of it, and version pointers.

use semver::Version;
use vstd::prelude::*;

use crate::digest;
use crate::harness::AppUpdateStatus;
use crate::text;

verus! {

broadcast use vstd::string::group_string_axioms;

/// How long a check stays valid, in milliseconds.
pub const CHECK_INTERVAL_MS: u64 = 86_400_000;

/// The most entries that a release archive may have.
pub const ENTRY_LIMIT: usize = 10_000;

/// The most bytes that a release archive may expand to.
pub const EXPANDED_LIMIT: u64 = 1_073_741_824;

/// Whether `semver::Version::parse` accepts a text.
pub uninterp spec fn is_version(s: Seq<char>) -> bool;

/// Whether the version `a` is greater than the version `b`, as `semver::Version` orders them.
pub uninterp spec fn version_above(a: Seq<char>, b: Seq<char>) -> bool;

/// A character that can occur in a version.
pub open spec fn version_char(c: char) -> bool {
    let n = c as u32;
    0x30 <= n <= 0x39 || 0x41 <= n <= 0x5a || 0x61 <= n <= 0x7a || c == '.' || c == '-' || c == '+'
}

/// `semver::Version::parse`: whether it accepts the text. What it accepts is not empty and
/// made of ASCII letters, digits, dots, hyphens and plus signs.
#[verifier::external_body]
fn version_parses(s: &str) -> (r: bool)
    ensures
        r == is_version(s@),
        r ==> s@.len() > 0 && forall|i: int| 0 <= i < s@.len() ==> version_char(#[trigger] s@[i]),
{
    Version::parse(s).is_ok()
}

/// The order of `semver::Version`: whether the first text is the greater version. `false`
/// where one of them is no version.
#[verifier::external_body]
fn version_exceeds(a: &str, b: &str) -> (r: bool)
    ensures
        r == version_above(a@, b@),
{
    match (Version::parse(a), Version::parse(b)) {
        (Ok(x), Ok(y)) => x > y,
        _ => false,
    }
}

/// A release that can be installed.
#[derive(Clone, Debug)]
pub struct UpdateCandidate {
    pub version: String,
    pub url: String,
    pub asset_name: String,
    pub size_bytes: u64,
    pub sha256: String,
}

impl UpdateCandidate {
    /// A copy of the candidate.
    pub fn copy(&self) -> (r: UpdateCandidate)
        ensures
            r == *self,
    {
        UpdateCandidate {
            version: self.version.clone(),
            url: self.url.clone(),
            asset_name: self.asset_name.clone(),
            size_bytes: self.size_bytes,
            sha256: self.sha256.clone(),
        }
    }
}

/// The outcome of an earlier check.
#[derive(Clone, Debug)]
pub struct UpdateCache {
    pub checked_at_ms: u64,
    pub candidate: Option<UpdateCandidate>,
}

/// A file of a release.
#[derive(Clone, Debug)]
pub struct ReleaseAsset {
    pub name: String,
    pub browser_download_url: String,
    pub size: u64,
    pub digest: Option<String>,
}

/// A published release.
#[derive(Clone, Debug)]
pub struct Release {
    pub tag_name: String,
    pub assets: Vec<ReleaseAsset>,
}

/// The machine that an update is for.
#[derive(Clone, Debug)]
pub struct Platform {
    pub os: String,
    pub arch: String,
}

/// Why an update is refused.
#[derive(Clone, Debug)]
pub enum UpdateError {
    CompiledVersion,
    ReleaseVersion { tag: String },
    NoAsset { version: String, target: String },
    NoDigest { asset: String },
    Size { expected: u64, received: u64 },
    Digest { asset: String, expected: String, received: String },
    TooManyEntries,
    SymbolicLink,
    NonFile,
    TooLarge,
    UnsafePath,
    Layout { executable: String, sidecar: String },
    Pointer { name: String },
}

impl UpdateError {
    /// The refusal in words.
    pub open spec fn text(self) -> Seq<char> {
        match self {
            UpdateError::CompiledVersion => "invalid compiled version"@,
            UpdateError::ReleaseVersion { tag } => "invalid Torii release version: "@ + tag@,
            UpdateError::NoAsset { version, target } => "release v"@ + version@
                + " has no asset for "@ + target@,
            UpdateError::NoDigest { asset } => "release asset "@ + asset@
                + " has no valid SHA-256 digest"@,
            UpdateError::Size { expected, received } => "release asset size mismatch: expected "@
                + text::decimal(expected as nat) + ", received "@ + text::decimal(received as nat),
            UpdateError::Digest { asset, expected, received } => "SHA-256 mismatch for "@ + asset@
                + ": expected "@ + expected@ + ", received "@ + received@,
            UpdateError::TooManyEntries => "release archive contains too many entries"@,
            UpdateError::SymbolicLink => "release archive contains a symbolic link"@,
            UpdateError::NonFile => "release archive contains a non-file entry"@,
            UpdateError::TooLarge => "release archive expands beyond 1 GiB"@,
            UpdateError::UnsafePath => "unsafe path in release archive"@,
            UpdateError::Layout { executable, sidecar } => "release archive is missing "@
                + executable@ + " or "@ + sidecar@,
            UpdateError::Pointer { name } => "invalid "@ + name@ + " version pointer"@,
        }
    }

    /// The refusal in words.
    pub fn message(&self) -> (r: String)
        ensures
            r@ == self.text(),
    {
        match self {
            UpdateError::CompiledVersion => "invalid compiled version".to_owned(),
            UpdateError::ReleaseVersion { tag } => text::joined(
                "invalid Torii release version: ",
                tag.as_str(),
            ),
            UpdateError::NoAsset { version, target } => text::joined(
                text::joined3("release v", version.as_str(), " has no asset for ").as_str(),
                target.as_str(),
            ),
            UpdateError::NoDigest { asset } => text::joined3(
                "release asset ",
                asset.as_str(),
                " has no valid SHA-256 digest",
            ),
            UpdateError::Size { expected, received } => text::joined(
                text::joined3(
                    "release asset size mismatch: expected ",
                    text::decimal_text(*expected).as_str(),
                    ", received ",
                ).as_str(),
                text::decimal_text(*received).as_str(),
            ),
            UpdateError::Digest { asset, expected, received } => text::joined3(
                text::joined3("SHA-256 mismatch for ", asset.as_str(), ": expected ").as_str(),
                text::joined(expected.as_str(), ", received ").as_str(),
                received.as_str(),
            ),
            UpdateError::TooManyEntries => "release archive contains too many entries".to_owned(),
            UpdateError::SymbolicLink => "release archive contains a symbolic link".to_owned(),
            UpdateError::NonFile => "release archive contains a non-file entry".to_owned(),
            UpdateError::TooLarge => "release archive expands beyond 1 GiB".to_owned(),
            UpdateError::UnsafePath => "unsafe path in release archive".to_owned(),
            UpdateError::Layout { executable, sidecar } => text::joined(
                text::joined3("release archive is missing ", executable.as_str(), " or ").as_str(),
                sidecar.as_str(),
            ),
            UpdateError::Pointer { name } => text::joined3(
                "invalid ",
                name.as_str(),
                " version pointer",
            ),
        }
    }
}

/// The build target of a machine.
pub open spec fn target_of(os: Seq<char>, arch: Seq<char>) -> Seq<char> {
    if os == "windows"@ && arch == "x86_64"@ {
        "x86_64-pc-windows-msvc"@
    } else if os == "windows"@ && arch == "aarch64"@ {
        "aarch64-pc-windows-msvc"@
    } else if os == "macos"@ && arch == "x86_64"@ {
        "x86_64-apple-darwin"@
    } else if os == "macos"@ && arch == "aarch64"@ {
        "aarch64-apple-darwin"@
    } else if os == "linux"@ && arch == "x86_64"@ {
        "x86_64-unknown-linux-gnu"@
    } else if os == "linux"@ && arch == "aarch64"@ {
        "aarch64-unknown-linux-gnu"@
    } else {
        "unsupported"@
    }
}

/// The build target of a machine.
pub fn target_name(platform: &Platform) -> (r: String)
    ensures
        r@ == target_of(platform.os@, platform.arch@),
{
    let windows: bool = text::same_text(platform.os.as_str(), "windows");
    let macos: bool = text::same_text(platform.os.as_str(), "macos");
    let linux: bool = text::same_text(platform.os.as_str(), "linux");
    let x86: bool = text::same_text(platform.arch.as_str(), "x86_64");
    let arm: bool = text::same_text(platform.arch.as_str(), "aarch64");
    if windows && x86 {
        "x86_64-pc-windows-msvc".to_owned()
    } else if windows && arm {
        "aarch64-pc-windows-msvc".to_owned()
    } else if macos && x86 {
        "x86_64-apple-darwin".to_owned()
    } else if macos && arm {
        "aarch64-apple-darwin".to_owned()
    } else if linux && x86 {
        "x86_64-unknown-linux-gnu".to_owned()
    } else if linux && arm {
        "aarch64-unknown-linux-gnu".to_owned()
    } else {
        "unsupported".to_owned()
    }
}

/// The name of the file that a release has for a machine.
pub open spec fn asset_name_of(version: Seq<char>, os: Seq<char>, arch: Seq<char>) -> Seq<char> {
    "torii-v"@ + version + "-"@ + target_of(os, arch) + "."@ + (if os == "windows"@ {
        "zip"@
    } else {
        "tar.gz"@
    })
}

/// The name of the file that a release has for a machine.
pub fn release_asset_name(version: &str, platform: &Platform) -> (r: String)
    ensures
        r@ == asset_name_of(version@, platform.os@, platform.arch@),
{
    let head: String = text::joined3("torii-v", version, "-");
    let stem: String = text::joined3(head.as_str(), target_name(platform).as_str(), ".");
    if text::same_text(platform.os.as_str(), "windows") {
        text::joined(stem.as_str(), "zip")
    } else {
        text::joined(stem.as_str(), "tar.gz")
    }
}

/// The file name of a program.
pub fn executable_name(name: &str, platform: &Platform) -> (r: String)
    ensures
        r@ == name@ + if platform.os@ == "windows"@ {
            ".exe"@
        } else {
            Seq::empty()
        },
{
    if text::same_text(platform.os.as_str(), "windows") {
        text::joined(name, ".exe")
    } else {
        assert(name@ =~= name@ + Seq::<char>::empty());
        name.to_owned()
    }
}

/// Whether an earlier check still holds at the time `now`.
pub open spec fn fresh(cache: UpdateCache, now: u64) -> bool {
    (if now >= cache.checked_at_ms {
        now - cache.checked_at_ms
    } else {
        0
    }) < CHECK_INTERVAL_MS
}

/// What is known of the versions that a cached answer speaks of.
#[derive(Clone, Copy, Debug, PartialEq, Eq, Structural)]
pub struct VersionFacts {
    /// The client's own version is one.
    pub current_known: bool,
    /// The other version is one.
    pub other_known: bool,
    /// The other version is greater than the client's own.
    pub other_greater: bool,
}

/// What is known of the client's own version and another one.
pub open spec fn facts_of(current: Seq<char>, other: Seq<char>) -> VersionFacts {
    VersionFacts {
        current_known: is_version(current),
        other_known: is_version(other),
        other_greater: version_above(other, current),
    }
}

/// What is known of the client's own version and another one.
pub fn version_facts(current: &str, other: &str) -> (r: VersionFacts)
    ensures
        r == facts_of(current@, other@),
{
    VersionFacts {
        current_known: version_parses(current),
        other_known: version_parses(other),
        other_greater: version_exceeds(other, current),
    }
}

/// The version that a cached answer speaks of.
pub open spec fn cached_version(cache: Option<UpdateCache>) -> Seq<char> {
    match cache {
        Some(c) => match c.candidate {
            Some(candidate) => candidate.version@,
            None => Seq::empty(),
        },
        None => Seq::empty(),
    }
}

/// Whether `r` is the answer of an earlier check, the versions being as they are known.
pub open spec fn answered(
    force: bool,
    cache: Option<UpdateCache>,
    now: u64,
    facts: VersionFacts,
    r: Result<Option<Option<UpdateCandidate>>, UpdateError>,
) -> bool {
    if !facts.current_known {
        r matches Err(UpdateError::CompiledVersion)
    } else {
        &&& r matches Ok(answer)
        &&& match cache {
            Some(c) => if force || !fresh(c, now) {
                answer is None
            } else {
                match c.candidate {
                    Some(candidate) => if !facts.other_known {
                        answer is None
                    } else if facts.other_greater {
                        answer == Some(Some(candidate))
                    } else {
                        answer == Some(None::<UpdateCandidate>)
                    },
                    None => answer == Some(None::<UpdateCandidate>),
                }
            },
            None => answer is None,
        }
    }
}

/// The answer of an earlier check that still holds: `None` if a new check is needed,
/// otherwise the candidate, if it is newer than the current version. A cache whose candidate
/// has no version cannot be read, and a new check is needed.
pub fn cached_answer(force: bool, cache: &Option<UpdateCache>, now: u64, current: &str) -> (r:
    Result<Option<Option<UpdateCandidate>>, UpdateError>)
    ensures
        answered(force, *cache, now, facts_of(current@, cached_version(*cache)), r),
{
    let facts: VersionFacts = match cache {
        Some(c) => match &c.candidate {
            Some(candidate) => version_facts(current, candidate.version.as_str()),
            None => version_facts(current, empty_text()),
        },
        None => version_facts(current, empty_text()),
    };
    answer_from(force, cache, now, facts)
}

fn empty_text() -> (r: &'static str)
    ensures
        r@ == Seq::<char>::empty(),
{
    proof {
        reveal_strlit("");
        assert(""@ =~= Seq::<char>::empty());
    }
    ""
}

/// The answer of an earlier check, the versions being as they are known.
pub fn answer_from(
    force: bool,
    cache: &Option<UpdateCache>,
    now: u64,
    facts: VersionFacts,
) -> (r: Result<Option<Option<UpdateCandidate>>, UpdateError>)
    ensures
        answered(force, *cache, now, facts, r),
{
    if !facts.current_known {
        return Err(UpdateError::CompiledVersion);
    }
    match cache {
        Some(c) => {
            if force || now.saturating_sub(c.checked_at_ms) >= CHECK_INTERVAL_MS {
                return Ok(None);
            }
            match &c.candidate {
                Some(candidate) => if !facts.other_known {
                    Ok(None)
                } else if facts.other_greater {
                    Ok(Some(Some(candidate.copy())))
                } else {
                    Ok(Some(None))
                },
                None => Ok(Some(None)),
            }
        },
        None => Ok(None),
    }
}

/// A text without the letters `v` before it.
pub open spec fn without_v(s: Seq<char>) -> Seq<char>
    decreases s.len(),
{
    if s.len() > 0 && s[0] == 'v' {
        without_v(s.subrange(1, s.len() as int))
    } else {
        s
    }
}

fn strip_v(s: &str) -> (r: String)
    ensures
        r@ == without_v(s@),
{
    let chars: Vec<char> = text::chars_of(s);
    let mut i: usize = 0;
    assert(chars@.subrange(0, chars@.len() as int) =~= s@);
    while i < chars.len() && chars[i] == 'v'
        invariant
            i <= chars.len(),
            without_v(s@) == without_v(chars@.subrange(i as int, chars@.len() as int)),
        decreases chars.len() - i,
    {
        assert(chars@.subrange(i as int, chars@.len() as int).subrange(
            1,
            chars@.len() - i,
        ) =~= chars@.subrange(i + 1, chars@.len() as int));
        i += 1;
    }
    text::string_between(&chars, i, chars.len())
}

/// Whether the first asset with a name is the one at `i`.
pub open spec fn first_asset(assets: Seq<ReleaseAsset>, name: Seq<char>, i: int) -> bool {
    &&& 0 <= i < assets.len()
    &&& assets[i].name@ == name
    &&& forall|j: int| 0 <= j < i ==> (#[trigger] assets[j]).name@ != name
}

/// The SHA-256 digest in a release's digest field: 64 hexadecimal digits after the
/// algorithm's name, in lower case.
pub open spec fn digest_of(field: Option<String>) -> Option<Seq<char>> {
    match field {
        Some(s) => {
            let rest = s@.subrange("sha256:"@.len() as int, s@.len() as int);
            if text::begins_with(s@, "sha256:"@) && rest.len() == 64 && (forall|i: int|
                0 <= i < rest.len() ==> digest::is_hex(#[trigger] rest[i])) {
                Some(rest.map_values(|c: char| text::ascii_lower(c)))
            } else {
                None
            }
        },
        None => None,
    }
}

fn read_digest(field: &Option<String>) -> (r: Option<String>)
    ensures
        match r {
            Some(s) => digest_of(*field) == Some(s@),
            None => digest_of(*field) is None,
        },
{
    let rest: String = match field {
        Some(s) => match text::strip_prefix(s.as_str(), "sha256:") {
            Some(rest) => rest,
            None => {
                return None;
            },
        },
        None => {
            return None;
        },
    };
    let chars: Vec<char> = text::chars_of(rest.as_str());
    if chars.len() != 64 {
        return None;
    }
    let mut out = String::new();
    let mut i: usize = 0;
    while i < chars.len()
        invariant
            i <= chars.len(),
            chars@.len() == 64,
            chars@ == rest@,
            field matches Some(s) && text::begins_with(s@, "sha256:"@) && rest@ == s@.subrange(
                "sha256:"@.len() as int,
                s@.len() as int,
            ),
            forall|j: int| 0 <= j < i ==> digest::is_hex(#[trigger] chars@[j]),
            out@ == chars@.take(i as int).map_values(|c: char| text::ascii_lower(c)),
        decreases chars.len() - i,
    {
        if !digest::is_hex_digit(chars[i]) {
            assert(!digest::is_hex(rest@[i as int]));
            return None;
        }
        out.push(text::to_lower(chars[i]));
        assert(chars@.take(i + 1).map_values(|c: char| text::ascii_lower(c)) =~= chars@.take(
            i as int,
        ).map_values(|c: char| text::ascii_lower(c)).push(text::ascii_lower(chars@[i as int])));
        i += 1;
    }
    assert(chars@.take(chars@.len() as int) =~= chars@);
    Some(out)
}

/// Whether `candidate` is what a release offers to a machine, from its asset at `i`.
pub open spec fn offered(
    release: Release,
    platform: Platform,
    i: int,
    candidate: UpdateCandidate,
) -> bool {
    let version = without_v(release.tag_name@);
    let asset = release.assets@[i];
    &&& first_asset(
        release.assets@,
        asset_name_of(version, platform.os@, platform.arch@),
        i,
    )
    &&& candidate.version@ == version
    &&& candidate.url == asset.browser_download_url
    &&& candidate.asset_name == asset.name
    &&& candidate.size_bytes == asset.size
    &&& digest_of(asset.digest) == Some(candidate.sha256@)
}

/// Whether `r` is the verdict on the latest release, the versions being as they are known.
pub open spec fn judged(
    release: Release,
    facts: VersionFacts,
    platform: Platform,
    r: Result<Option<UpdateCandidate>, UpdateError>,
) -> bool {
    let version = without_v(release.tag_name@);
    let name = asset_name_of(version, platform.os@, platform.arch@);
    let newer = facts.current_known && facts.other_known && facts.other_greater;
    match r {
        Err(UpdateError::CompiledVersion) => !facts.current_known,
        Err(UpdateError::ReleaseVersion { tag }) => facts.current_known && !facts.other_known
            && tag == release.tag_name,
        Ok(None) => facts.current_known && facts.other_known && !facts.other_greater,
        Err(UpdateError::NoAsset { version: v, target }) => newer && v@ == version && target@
            == target_of(platform.os@, platform.arch@) && forall|i: int|
            !first_asset(release.assets@, name, i),
        Err(UpdateError::NoDigest { asset }) => newer && exists|i: int|
            {
                &&& #[trigger] first_asset(release.assets@, name, i)
                &&& digest_of(release.assets@[i].digest) is None
                &&& asset == release.assets@[i].name
            },
        Ok(Some(candidate)) => newer && exists|i: int| #[trigger]
            offered(release, platform, i, candidate),
        Err(_) => false,
    }
}

/// What the latest release offers: nothing unless it is newer than the current version.
pub fn evaluate_release(release: &Release, current: &str, platform: &Platform) -> (r: Result<
    Option<UpdateCandidate>,
    UpdateError,
>)
    ensures
        judged(*release, facts_of(current@, without_v(release.tag_name@)), *platform, r),
{
    let version: String = strip_v(release.tag_name.as_str());
    judge_release(release, version_facts(current, version.as_str()), platform)
}

/// What the latest release offers, the versions being as they are known.
pub fn judge_release(release: &Release, facts: VersionFacts, platform: &Platform) -> (r: Result<
    Option<UpdateCandidate>,
    UpdateError,
>)
    ensures
        judged(*release, facts, *platform, r),
{
    if !facts.current_known {
        return Err(UpdateError::CompiledVersion);
    }
    if !facts.other_known {
        return Err(UpdateError::ReleaseVersion { tag: release.tag_name.clone() });
    }
    if !facts.other_greater {
        return Ok(None);
    }
    let version: String = strip_v(release.tag_name.as_str());
    let name: String = release_asset_name(version.as_str(), platform);
    match find_asset(&release.assets, name.as_str()) {
        Some(i) => match read_digest(&release.assets[i].digest) {
            Some(sha256) => {
                let candidate = UpdateCandidate {
                    version,
                    url: release.assets[i].browser_download_url.clone(),
                    asset_name: release.assets[i].name.clone(),
                    size_bytes: release.assets[i].size,
                    sha256,
                };
                assert(offered(*release, *platform, i as int, candidate));
                let verdict: Result<Option<UpdateCandidate>, UpdateError> = Ok(Some(candidate));
                assert(verdict matches Ok(Some(c)) && offered(*release, *platform, i as int, c));
                verdict
            },
            None => Err(UpdateError::NoDigest { asset: release.assets[i].name.clone() }),
        },
        None => Err(UpdateError::NoAsset { version, target: target_name(platform) }),
    }
}

fn find_asset(assets: &Vec<ReleaseAsset>, name: &str) -> (r: Option<usize>)
    ensures
        match r {
            Some(i) => first_asset(assets@, name@, i as int),
            None => forall|i: int| !first_asset(assets@, name@, i),
        },
{
    let mut i: usize = 0;
    while i < assets.len()
        invariant
            i <= assets.len(),
            forall|j: int| 0 <= j < i ==> (#[trigger] assets@[j]).name@ != name@,
        decreases assets.len() - i,
    {
        if text::same_text(assets[i].name.as_str(), name) {
            return Some(i);
        }
        i += 1;
    }
    None
}

/// How a candidate is announced.
pub fn candidate_status(candidate: &UpdateCandidate) -> (r: AppUpdateStatus)
    ensures
        r == (AppUpdateStatus::Available {
            version: candidate.version,
            size_bytes: candidate.size_bytes,
        }),
{
    AppUpdateStatus::Available {
        version: candidate.version.clone(),
        size_bytes: candidate.size_bytes,
    }
}

/// A download under way.
#[derive(Clone, Debug)]
pub struct Download {
    pub bytes: Vec<u8>,
}

impl Download {
    /// A download that has received nothing.
    pub fn new() -> (r: Download)
        ensures
            r.bytes@.len() == 0,
    {
        Download { bytes: Vec::new() }
    }

    /// Takes in a piece of the download; returns what to show of its progress.
    pub fn receive(&mut self, candidate: &UpdateCandidate, total: u64, chunk: &mut Vec<u8>) -> (r:
        AppUpdateStatus)
        requires
            old(self).bytes@.len() + old(chunk)@.len() <= u64::MAX,
        ensures
            final(self).bytes@ == old(self).bytes@ + old(chunk)@,
            r == (AppUpdateStatus::Downloading {
                version: candidate.version,
                downloaded_bytes: final(self).bytes@.len() as u64,
                total_bytes: total,
            }),
    {
        self.bytes.append(chunk);
        AppUpdateStatus::Downloading {
            version: candidate.version.clone(),
            downloaded_bytes: self.bytes.len() as u64,
            total_bytes: total,
        }
    }

    /// Whether what was received is what the candidate promises.
    pub fn verify(&self, candidate: &UpdateCandidate) -> (r: Result<(), UpdateError>)
        requires
            self.bytes@.len() <= u64::MAX,
        ensures
            ({
                let received = digest::hex(digest::sha256(self.bytes@));
                match r {
                    Err(UpdateError::Size { expected, received: n }) => candidate.size_bytes
                        != self.bytes@.len() && expected == candidate.size_bytes && n
                        == self.bytes@.len(),
                    Err(UpdateError::Digest { asset, expected, received: h }) =>
                        candidate.size_bytes == self.bytes@.len() && candidate.sha256@ != received
                            && asset == candidate.asset_name && expected == candidate.sha256 && h@
                            == received,
                    Ok(_) => candidate.size_bytes == self.bytes@.len() && candidate.sha256@
                        == received,
                    Err(_) => false,
                }
            }),
    {
        compare_download(candidate, self.bytes.len() as u64, digest::sha256_hex(&self.bytes))
    }
}

/// Whether the size and the digest of a download are what the candidate promises.
pub fn compare_download(candidate: &UpdateCandidate, size: u64, sha256: String) -> (r: Result<
    (),
    UpdateError,
>)
    ensures
        match r {
            Err(UpdateError::Size { expected, received }) => candidate.size_bytes != size
                && expected == candidate.size_bytes && received == size,
            Err(UpdateError::Digest { asset, expected, received }) => candidate.size_bytes == size
                && candidate.sha256@ != sha256@ && asset == candidate.asset_name && expected
                == candidate.sha256 && received == sha256,
            Ok(_) => candidate.size_bytes == size && candidate.sha256@ == sha256@,
            Err(_) => false,
        },
{
    if candidate.size_bytes != size {
        return Err(UpdateError::Size { expected: candidate.size_bytes, received: size });
    }
    if sha256 != candidate.sha256 {
        return Err(
            UpdateError::Digest {
                asset: candidate.asset_name.clone(),
                expected: candidate.sha256.clone(),
                received: sha256,
            },
        );
    }
    Ok(())
}

/// One component of a path in an archive.
#[derive(Clone, Copy, Debug, PartialEq, Eq, Structural)]
pub enum PathPart {
    Current,
    Normal,
    /// A root, a prefix or a step upwards.
    Other,
}

/// A path that stays below the directory that it is unpacked in.
pub open spec fn safe_path(parts: Seq<PathPart>) -> bool {
    forall|i: int| 0 <= i < parts.len() ==> !((#[trigger] parts[i]) is Other)
}

fn is_safe_path(parts: &Vec<PathPart>) -> (r: bool)
    ensures
        r == safe_path(parts@),
{
    let mut i: usize = 0;
    while i < parts.len()
        invariant
            i <= parts.len(),
            forall|j: int| 0 <= j < i ==> !((#[trigger] parts@[j]) is Other),
        decreases parts.len() - i,
    {
        if parts[i] == PathPart::Other {
            return false;
        }
        i += 1;
    }
    true
}

/// How much of an archive was unpacked.
#[derive(Clone, Copy, Debug, PartialEq, Eq, Structural)]
pub struct ArchiveBudget {
    pub entries: usize,
    pub bytes: u64,
}

/// The sum of two sizes, or the largest size if it does not fit.
pub open spec fn added(a: u64, b: u64) -> u64 {
    if a + b > u64::MAX {
        u64::MAX
    } else {
        (a + b) as u64
    }
}

impl ArchiveBudget {
    /// The budget at the start of an archive.
    pub fn new() -> (r: ArchiveBudget)
        ensures
            r == (ArchiveBudget { entries: 0, bytes: 0 }),
    {
        ArchiveBudget { entries: 0, bytes: 0 }
    }

    /// Whether the next entry of a tar archive may be unpacked.
    pub fn admit_tar(&mut self, plain: bool, size: u64, parts: &Vec<PathPart>) -> (r: Result<
        (),
        UpdateError,
    >)
        requires
            old(self).entries <= ENTRY_LIMIT,
        ensures
            ({
                let total = added(old(self).bytes, size);
                match r {
                    Err(UpdateError::TooManyEntries) => old(self).entries == ENTRY_LIMIT,
                    Err(UpdateError::NonFile) => old(self).entries < ENTRY_LIMIT && !plain,
                    Err(UpdateError::TooLarge) => old(self).entries < ENTRY_LIMIT && plain && total
                        > EXPANDED_LIMIT,
                    Err(UpdateError::UnsafePath) => old(self).entries < ENTRY_LIMIT && plain
                        && total <= EXPANDED_LIMIT && !safe_path(parts@),
                    Err(_) => false,
                    Ok(_) => old(self).entries < ENTRY_LIMIT && plain && total <= EXPANDED_LIMIT
                        && safe_path(parts@) && *final(self) == (ArchiveBudget {
                        entries: (old(self).entries + 1) as usize,
                        bytes: total,
                    }),
                }
            }),
    {
        if self.entries >= ENTRY_LIMIT {
            return Err(UpdateError::TooManyEntries);
        }
        self.entries = self.entries + 1;
        if !plain {
            return Err(UpdateError::NonFile);
        }
        self.bytes = self.bytes.saturating_add(size);
        if self.bytes > EXPANDED_LIMIT {
            return Err(UpdateError::TooLarge);
        }
        if !is_safe_path(parts) {
            return Err(UpdateError::UnsafePath);
        }
        Ok(())
    }

    /// Whether a zip archive with this many entries may be unpacked.
    pub fn admit_zip(count: usize) -> (r: Result<(), UpdateError>)
        ensures
            match r {
                Ok(_) => count <= ENTRY_LIMIT,
                Err(error) => count > ENTRY_LIMIT && error is TooManyEntries,
            },
    {
        if count > ENTRY_LIMIT {
            Err(UpdateError::TooManyEntries)
        } else {
            Ok(())
        }
    }

    /// Whether the next entry of a zip archive may be unpacked. `link` says that its mode
    /// marks a symbolic link, `enclosed` that its path stays inside.
    pub fn admit_zip_entry(&mut self, link: bool, size: u64, enclosed: bool) -> (r: Result<
        (),
        UpdateError,
    >)
        ensures
            ({
                let total = added(old(self).bytes, size);
                match r {
                    Err(UpdateError::SymbolicLink) => link,
                    Err(UpdateError::TooLarge) => !link && total > EXPANDED_LIMIT,
                    Err(UpdateError::UnsafePath) => !link && total <= EXPANDED_LIMIT && !enclosed,
                    Err(_) => false,
                    Ok(_) => !link && total <= EXPANDED_LIMIT && enclosed && *final(self) == (
                    ArchiveBudget { bytes: total, ..*old(self) }),
                }
            }),
    {
        if link {
            return Err(UpdateError::SymbolicLink);
        }
        self.bytes = self.bytes.saturating_add(size);
        if self.bytes > EXPANDED_LIMIT {
            return Err(UpdateError::TooLarge);
        }
        if !enclosed {
            return Err(UpdateError::UnsafePath);
        }
        Ok(())
    }
}

/// Whether a Unix mode marks a symbolic link.
pub fn is_symbolic_link(mode: Option<u32>) -> (r: bool)
    ensures
        r == (mode matches Some(m) && (m & 0o170_000u32) == 0o120_000u32),
{
    match mode {
        Some(m) => (m & 0o170_000u32) == 0o120_000u32,
        None => false,
    }
}

/// Whether an unpacked release holds what it must.
pub fn validate_layout(has_executable: bool, has_sidecar: bool, executable: &str, sidecar: &str)
    -> (r: Result<(), UpdateError>)
    ensures
        match r {
            Ok(_) => has_executable && has_sidecar,
            Err(error) => {
                &&& !(has_executable && has_sidecar)
                &&& error matches UpdateError::Layout { executable: e, sidecar: s }
                &&& e@ == executable@
                &&& s@ == sidecar@
            },
        },
{
    if has_executable && has_sidecar {
        Ok(())
    } else {
        Err(
            UpdateError::Layout { executable: executable.to_owned(), sidecar: sidecar.to_owned() },
        )
    }
}

/// A text of at least one character, all of which can occur in a version. No path is one.
pub open spec fn is_plain(s: Seq<char>) -> bool {
    s.len() > 0 && forall|i: int| 0 <= i < s.len() ==> version_char(#[trigger] s[i])
}

/// The version in the contents of a pointer file.
pub fn read_pointer(contents: &str) -> (r: Option<String>)
    ensures
        match r {
            Some(version) => version@ == text::trim(contents@) && is_version(version@) && is_plain(
                version@,
            ),
            None => !is_version(text::trim(contents@)),
        },
{
    let value: String = text::trimmed(contents);
    if version_parses(value.as_str()) {
        Some(value)
    } else {
        None
    }
}

/// The contents of a pointer file for a version. They are read back as that version.
pub fn write_pointer(name: &str, version: &str) -> (r: Result<String, UpdateError>)
    ensures
        match r {
            Ok(contents) => is_version(version@) && is_plain(version@) && contents@ == version@
                + "\n"@ && text::trim(contents@) == version@,
            Err(error) => {
                &&& !is_version(version@)
                &&& error matches UpdateError::Pointer { name: n }
                &&& n@ == name@
            },
        },
{
    if version_parses(version) {
        proof {
            reveal_strlit("\n");
            line_is_trimmed(version@);
        }
        Ok(text::joined(version, "\n"))
    } else {
        Err(UpdateError::Pointer { name: name.to_owned() })
    }
}

proof fn line_is_trimmed(s: Seq<char>)
    requires
        s.len() > 0,
        forall|i: int| 0 <= i < s.len() ==> version_char(#[trigger] s[i]),
        "\n"@.len() == 1,
        "\n"@[0] == '\n',
    ensures
        text::trim(s + "\n"@) == s,
{
    let line = s + "\n"@;
    assert(version_char(s[0]));
    assert(line[0] == s[0]);
    assert(!text::white_space(line[0]));
    assert(text::trim_start(line) == line);
    assert(line[line.len() - 1] == '\n');
    assert(line.subrange(0, line.len() - 1) =~= s);
    assert(version_char(s[s.len() - 1]));
    assert(!text::white_space(s[s.len() - 1]));
    assert(text::trim_end(s) == s);
}

/// One pointer file to write.
#[derive(Clone, Debug)]
pub struct PointerWrite {
    pub name: String,
    pub version: String,
}

/// The pointers to write, in order, to make a version the current one. The version that
/// was current before is kept as the previous one.
pub fn activation(current: &Option<String>, version: &str) -> (r: Vec<PointerWrite>)
    ensures
        ({
            let skip = if current is Some { 1int } else { 0int };
            &&& r@.len() == skip + 2
            &&& current matches Some(c) ==> r@[0].name@ == "previous"@ && r@[0].version == c
            &&& r@[skip].name@ == "current"@
            &&& r@[skip].version@ == version@
            &&& r@[skip + 1].name@ == "pending"@
            &&& r@[skip + 1].version@ == version@
        }),
{
    let mut out: Vec<PointerWrite> = Vec::new();
    match current {
        Some(c) => {
            out.push(PointerWrite { name: "previous".to_owned(), version: c.clone() });
        },
        None => {},
    }
    out.push(PointerWrite { name: "current".to_owned(), version: version.to_owned() });
    out.push(PointerWrite { name: "pending".to_owned(), version: version.to_owned() });
    out
}

/// An offered release is newer than the current version, meant for this machine, and
/// comes with a digest of 64 characters.
pub proof fn offers_are_checked(
    release: Release,
    platform: Platform,
    i: int,
    candidate: UpdateCandidate,
)
    requires
        offered(release, platform, i, candidate),
    ensures
        candidate.asset_name@ == asset_name_of(candidate.version@, platform.os@, platform.arch@),
        candidate.sha256@.len() == 64,
{
}

/// A check holds for a day.
pub proof fn checks_hold_for_a_day(cache: UpdateCache, now: u64)
    ensures
        fresh(cache, now) <==> now < cache.checked_at_ms + 24 * 60 * 60 * 1000,
{
}

/// An earlier check answers only within its day and only where nothing else is asked for; it
/// offers the release that it found where that is newer, and nothing where it is not.
pub proof fn earlier_checks_answer(
    force: bool,
    cache: UpdateCache,
    now: u64,
    facts: VersionFacts,
    r: Result<Option<Option<UpdateCandidate>>, UpdateError>,
)
    requires
        answered(force, Some(cache), now, facts, r),
        facts.current_known,
        facts.other_known,
    ensures
        r is Ok,
        force || now >= cache.checked_at_ms + 24 * 60 * 60 * 1000 ==> r->Ok_0 is None,
        !force && now < cache.checked_at_ms + 24 * 60 * 60 * 1000 ==> {
            &&& r->Ok_0 is Some
            &&& cache.candidate is Some && facts.other_greater ==> r->Ok_0->0 == cache.candidate
            &&& cache.candidate is None || !facts.other_greater ==> r->Ok_0->0 is None
        },
{
}

/// A release that is offered is newer; one that is not is never offered.
pub proof fn only_newer_releases_are_offered(
    release: Release,
    facts: VersionFacts,
    platform: Platform,
    r: Result<Option<UpdateCandidate>, UpdateError>,
)
    requires
        judged(release, facts, platform, r),
    ensures
        r matches Ok(Some(_)) ==> facts.other_greater,
        facts.current_known && facts.other_known && !facts.other_greater ==> r matches Ok(None),
        facts.current_known && facts.other_known && facts.other_greater ==> !(r matches Ok(None)),
        !facts.current_known || !facts.other_known ==> r is Err,
{
}

/// What is offered is one of the files of the release: its address, its size and its digest.
pub proof fn offers_come_from_the_release(
    release: Release,
    facts: VersionFacts,
    platform: Platform,
    candidate: UpdateCandidate,
) -> (i: int)
    requires
        judged(release, facts, platform, Ok(Some(candidate))),
    ensures
        0 <= i < release.assets@.len(),
        candidate.url == release.assets@[i].browser_download_url,
        candidate.asset_name == release.assets@[i].name,
        candidate.size_bytes == release.assets@[i].size,
        release.assets@[i].digest is Some,
        release.assets@[i].digest->0@.len() == candidate.sha256@.len() + 7,
        candidate.sha256@.len() == 64,
        release.assets@[i].name@ == asset_name_of(
            candidate.version@,
            platform.os@,
            platform.arch@,
        ),
{
    reveal_strlit("sha256:");
    let i = choose|i: int| #[trigger] offered(release, platform, i, candidate);
    assert(offered(release, platform, i, candidate));
    i
}

/// A file is named after its version and its machine: no two supported machines share one, and
/// only Windows gets an archive of its own kind.
pub proof fn machines_have_their_own_files(
    version: Seq<char>,
    os: Seq<char>,
    arch: Seq<char>,
    other_os: Seq<char>,
    other_arch: Seq<char>,
)
    requires
        os == "windows"@ || os == "macos"@ || os == "linux"@,
        arch == "x86_64"@ || arch == "aarch64"@,
        other_os == "windows"@ || other_os == "macos"@ || other_os == "linux"@,
        other_arch == "x86_64"@ || other_arch == "aarch64"@,
    ensures
        target_of(os, arch) == target_of(other_os, other_arch) ==> os == other_os && arch
            == other_arch,
        text::begins_with(target_of(os, arch), arch),
        text::begins_with(asset_name_of(version, os, arch), "torii-v"@ + version + "-"@),
        text::finishes_with(asset_name_of(version, os, arch), ".zip"@) <==> os == "windows"@,
{
    reveal_strlit("windows");
    reveal_strlit("macos");
    reveal_strlit("linux");
    reveal_strlit("x86_64");
    reveal_strlit("aarch64");
    reveal_strlit("x86_64-pc-windows-msvc");
    reveal_strlit("aarch64-pc-windows-msvc");
    reveal_strlit("x86_64-apple-darwin");
    reveal_strlit("aarch64-apple-darwin");
    reveal_strlit("x86_64-unknown-linux-gnu");
    reveal_strlit("aarch64-unknown-linux-gnu");
    assert("windows"@.len() == 7);
    assert("macos"@.len() == 5);
    assert("linux"@.len() == 5);
    assert("x86_64"@.len() == 6);
    assert("aarch64"@.len() == 7);
    assert("x86_64-pc-windows-msvc"@.len() == 22);
    assert("aarch64-pc-windows-msvc"@.len() == 23);
    assert("x86_64-apple-darwin"@.len() == 19);
    assert("aarch64-apple-darwin"@.len() == 20);
    assert("x86_64-unknown-linux-gnu"@.len() == 24);
    assert("aarch64-unknown-linux-gnu"@.len() == 25);
    assert("windows"@[0] == 'w');
    assert("aarch64"@[0] == 'a');
    assert("macos"@[0] == 'm');
    assert("linux"@[0] == 'l');
    reveal_strlit("zip");
    reveal_strlit(".zip");
    reveal_strlit("tar.gz");
    reveal_strlit(".");
    let target = target_of(os, arch);
    assert(target.subrange(0, arch.len() as int) =~= arch);
    let head = "torii-v"@ + version + "-"@;
    let name = asset_name_of(version, os, arch);
    assert(name.subrange(0, head.len() as int) =~= head);
    if os == "windows"@ {
        assert(name.subrange(name.len() - 4, name.len() as int) =~= ".zip"@);
    } else {
        assert(name[name.len() - 1] == 'z');
        assert("tar.gz"@[5] == 'z');
        assert(name[name.len() - 1] == "tar.gz"@[5]);
        assert(name.subrange(name.len() - 4, name.len() as int)[3] == 'z');
        assert(".zip"@[3] == 'p');
    }
}

/// The version of a release is its tag without the letters in front of it.
pub proof fn tags_lose_their_letter(tag: Seq<char>) -> (n: int)
    ensures
        0 <= n <= tag.len(),
        without_v(tag) == tag.subrange(n, tag.len() as int),
        forall|i: int| 0 <= i < n ==> #[trigger] tag[i] == 'v',
        without_v(tag).len() > 0 ==> without_v(tag)[0] != 'v',
    decreases tag.len(),
{
    if tag.len() > 0 && tag[0] == 'v' {
        let rest = tag.subrange(1, tag.len() as int);
        let n = tags_lose_their_letter(rest);
        assert(without_v(tag) =~= tag.subrange(n + 1, tag.len() as int));
        assert forall|i: int| 0 <= i < n + 1 implies #[trigger] tag[i] == 'v' by {
            if i > 0 {
                assert(rest[i - 1] == 'v');
            }
        }
        n + 1
    } else {
        assert(tag.subrange(0, tag.len() as int) =~= tag);
        0
    }
}

/// A path that goes up, or begins elsewhere, anywhere on its way is not unpacked.
pub proof fn paths_stay_inside(parts: Seq<PathPart>, i: int)
    requires
        0 <= i < parts.len(),
        parts[i] is Other,
    ensures
        !safe_path(parts),
        safe_path(Seq::<PathPart>::empty()),
{
}

} // verus!
