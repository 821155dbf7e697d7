use vstd::prelude::*;

use crate::text::{has_prefix, lower_hex, push_text, same_text, starts_with, text_of, lower_hex_text};

verus! {

/// Bookkeeping that the track service sends along with every answer.
pub struct InvocationInfo {
    pub exec_duration_millis: i32,
    pub hostname: String,
    pub req_id: String,
}

/// One way to download a track, as the service offers it.
pub struct TrackInfoResult {
    pub bitrate_in_kbps: i32,
    pub codec: String,
    pub direct: bool,
    pub download_info_url: String,
    pub gain: bool,
    pub preview: bool,
}

/// The service's answer to a download-info request.
pub struct TrackInfo {
    pub invocation_info: InvocationInfo,
    pub result: Vec<TrackInfoResult>,
}

/// Where and how to fetch the audio file of a track.
pub struct DownloadInfo {
    pub host: String,
    pub path: String,
    pub ts: String,
    pub region: i32,
    pub s: String,
}

/// The pattern that finds the runs of digits in a track link.
pub open spec fn digit_runs_pattern() -> Seq<char> {
    "(\\d+)"@
}

/// What the `regex` crate finds in `haystack` for `pattern`: `None` when the
/// pattern does not compile, else the text of each match, left to right.
pub uninterp spec fn regex_matches(pattern: Seq<char>, haystack: Seq<char>) -> Option<Seq<Seq<char>>>;

/// The MD5 digest that the `md5` crate computes of the UTF-8 bytes of `text`.
pub uninterp spec fn md5_digest(text: Seq<char>) -> Seq<u8>;

/// `c` is a decimal digit: a character of Unicode general category Nd, as
/// the `DECIMAL_NUMBER` table of regex-syntax 0.8.11 (Unicode 16.0) lists
/// them. The regex crate, with its default Unicode support, matches `\d`
/// against exactly this class.
pub open spec fn is_decimal_digit(c: char) -> bool {
    let v = c as u32;
    ||| 0x30 <= v <= 0x39
    ||| 0x660 <= v <= 0x669
    ||| 0x6f0 <= v <= 0x6f9
    ||| 0x7c0 <= v <= 0x7c9
    ||| 0x966 <= v <= 0x96f
    ||| 0x9e6 <= v <= 0x9ef
    ||| 0xa66 <= v <= 0xa6f
    ||| 0xae6 <= v <= 0xaef
    ||| 0xb66 <= v <= 0xb6f
    ||| 0xbe6 <= v <= 0xbef
    ||| 0xc66 <= v <= 0xc6f
    ||| 0xce6 <= v <= 0xcef
    ||| 0xd66 <= v <= 0xd6f
    ||| 0xde6 <= v <= 0xdef
    ||| 0xe50 <= v <= 0xe59
    ||| 0xed0 <= v <= 0xed9
    ||| 0xf20 <= v <= 0xf29
    ||| 0x1040 <= v <= 0x1049
    ||| 0x1090 <= v <= 0x1099
    ||| 0x17e0 <= v <= 0x17e9
    ||| 0x1810 <= v <= 0x1819
    ||| 0x1946 <= v <= 0x194f
    ||| 0x19d0 <= v <= 0x19d9
    ||| 0x1a80 <= v <= 0x1a89
    ||| 0x1a90 <= v <= 0x1a99
    ||| 0x1b50 <= v <= 0x1b59
    ||| 0x1bb0 <= v <= 0x1bb9
    ||| 0x1c40 <= v <= 0x1c49
    ||| 0x1c50 <= v <= 0x1c59
    ||| 0xa620 <= v <= 0xa629
    ||| 0xa8d0 <= v <= 0xa8d9
    ||| 0xa900 <= v <= 0xa909
    ||| 0xa9d0 <= v <= 0xa9d9
    ||| 0xa9f0 <= v <= 0xa9f9
    ||| 0xaa50 <= v <= 0xaa59
    ||| 0xabf0 <= v <= 0xabf9
    ||| 0xff10 <= v <= 0xff19
    ||| 0x104a0 <= v <= 0x104a9
    ||| 0x10d30 <= v <= 0x10d39
    ||| 0x10d40 <= v <= 0x10d49
    ||| 0x11066 <= v <= 0x1106f
    ||| 0x110f0 <= v <= 0x110f9
    ||| 0x11136 <= v <= 0x1113f
    ||| 0x111d0 <= v <= 0x111d9
    ||| 0x112f0 <= v <= 0x112f9
    ||| 0x11450 <= v <= 0x11459
    ||| 0x114d0 <= v <= 0x114d9
    ||| 0x11650 <= v <= 0x11659
    ||| 0x116c0 <= v <= 0x116c9
    ||| 0x116d0 <= v <= 0x116e3
    ||| 0x11730 <= v <= 0x11739
    ||| 0x118e0 <= v <= 0x118e9
    ||| 0x11950 <= v <= 0x11959
    ||| 0x11bf0 <= v <= 0x11bf9
    ||| 0x11c50 <= v <= 0x11c59
    ||| 0x11d50 <= v <= 0x11d59
    ||| 0x11da0 <= v <= 0x11da9
    ||| 0x11f50 <= v <= 0x11f59
    ||| 0x16130 <= v <= 0x16139
    ||| 0x16a60 <= v <= 0x16a69
    ||| 0x16ac0 <= v <= 0x16ac9
    ||| 0x16b50 <= v <= 0x16b59
    ||| 0x16d70 <= v <= 0x16d79
    ||| 0x1ccf0 <= v <= 0x1ccf9
    ||| 0x1d7ce <= v <= 0x1d7ff
    ||| 0x1e140 <= v <= 0x1e149
    ||| 0x1e2f0 <= v <= 0x1e2f9
    ||| 0x1e4f0 <= v <= 0x1e4f9
    ||| 0x1e5f1 <= v <= 0x1e5fa
    ||| 0x1e950 <= v <= 0x1e959
    ||| 0x1fbf0 <= v <= 0x1fbf9
}

/// Position `k` of `s` holds a decimal digit.
pub open spec fn digit_at(s: Seq<char>, k: int) -> bool {
    0 <= k < s.len() && is_decimal_digit(s[k])
}

/// A run of digits starts at `k`: a digit not preceded by a digit.
pub open spec fn run_starts_at(s: Seq<char>, k: int) -> bool {
    digit_at(s, k) && !digit_at(s, k - 1)
}

/// `s[i..j]` is a maximal run of consecutive decimal digits: non-empty, all
/// digits, and neither neighbour is a digit.
pub open spec fn digit_run(s: Seq<char>, i: int, j: int) -> bool {
    &&& 0 <= i < j <= s.len()
    &&& run_starts_at(s, i)
    &&& !digit_at(s, j)
    &&& forall|k: int| i <= k < j ==> digit_at(s, k)
}

/// How many runs of digits start before position `n` of `s`.
pub open spec fn runs_before(s: Seq<char>, n: int) -> nat
    decreases n,
{
    if n <= 0 {
        0
    } else {
        runs_before(s, n - 1) + if run_starts_at(s, n - 1) {
            1nat
        } else {
            0nat
        }
    }
}

/// `t` is the run of digits numbered `k` (from 0, left to right) in `s`.
pub open spec fn is_kth_run(s: Seq<char>, k: int, t: Seq<char>) -> bool {
    exists|i: int, j: int| digit_run(s, i, j) && runs_before(s, i) == k && t == s.subrange(i, j)
}

/// Calls `regex::Regex::new(pattern)` and then `captures_iter(haystack)`,
/// handing out the whole match (group 0) of each capture. The contract
/// claims that the result is the name `regex_matches` applied to the two
/// arguments, and, for the pattern `(\d+)` alone, what the regex crate
/// documents of it: the pattern compiles, and the leftmost-first greedy
/// matches of `\d+` are the maximal runs of decimal digits, in order. What
/// other patterns match is not stated.
#[verifier::external_body]
fn find_all(pattern: &str, haystack: &str) -> (r: Option<Vec<String>>)
    ensures
        r matches Some(v) ==> regex_matches(pattern@, haystack@) == Some(
            v@.map_values(|m: String| m@),
        ),
        r is None ==> regex_matches(pattern@, haystack@) is None,
        pattern@ == digit_runs_pattern() ==> (r matches Some(v) && v@.len() == runs_before(
            haystack@,
            haystack@.len() as int,
        ) && forall|k: int| 0 <= k < v@.len() ==> #[trigger] is_kth_run(haystack@, k, v@[k]@)),
{
    regex::Regex::new(pattern).ok().map(
        |re| re.captures_iter(haystack).map(|c| c[0].to_string()).collect(),
    )
}

/// Calls `md5::compute` on the bytes of `text` and hands out the sixteen
/// digest bytes; the contract claims only that they are the name
/// `md5_digest` of the text.
#[verifier::external_body]
fn md5_of(text: &str) -> (r: [u8; 16])
    ensures
        r@ == md5_digest(text@),
{
    md5::compute(text).0
}

/// The track id that a link or id names, given the digit runs found in it:
/// the second run; `None` where there is no such run.
pub open spec fn second_run(digit_runs: Option<Seq<Seq<char>>>) -> Option<Seq<char>> {
    match digit_runs {
        Some(runs) => if runs.len() >= 2 {
            Some(runs[1])
        } else {
            None
        },
        None => None,
    }
}

/// The second maximal run of decimal digits in `s`, if there is one.
pub open spec fn second_digit_run_of(s: Seq<char>) -> Option<Seq<char>> {
    if exists|i: int, j: int| digit_run(s, i, j) && runs_before(s, i) == 1 {
        let (i, j) = choose|i: int, j: int| digit_run(s, i, j) && runs_before(s, i) == 1;
        Some(s.subrange(i, j))
    } else {
        None
    }
}

/// The track id named by `url`: a link (text that begins with `http`) names the
/// second maximal run of decimal digits in it, anything else is the id itself.
/// `None` where a link holds fewer than two runs of digits.
pub open spec fn spec_track_id(url: Seq<char>) -> Option<Seq<char>> {
    if has_prefix(url, "http"@) {
        second_digit_run_of(url)
    } else {
        Some(url)
    }
}

/// `url` begins with the four characters `http`.
pub open spec fn is_link(url: Seq<char>) -> bool {
    url.len() >= 4 && url[0] == 'h' && url[1] == 't' && url[2] == 't' && url[3] == 'p'
}

/// Runs of digits only add up: a run that starts at `a` is counted before
/// any later position.
proof fn lemma_runs_before_grows(s: Seq<char>, a: int, b: int)
    requires
        0 <= a < b,
    ensures
        runs_before(s, b) >= runs_before(s, a) + if run_starts_at(s, a) {
            1nat
        } else {
            0nat
        },
    decreases b - a,
{
    if b > a + 1 {
        lemma_runs_before_grows(s, a, b - 1);
    }
}

/// Two runs of digits with the same number are the same run.
proof fn lemma_digit_run_unique(s: Seq<char>, i: int, j: int, i2: int, j2: int)
    requires
        digit_run(s, i, j),
        digit_run(s, i2, j2),
        runs_before(s, i) == runs_before(s, i2),
    ensures
        i == i2,
        j == j2,
{
    if i < i2 {
        lemma_runs_before_grows(s, i, i2);
    } else if i2 < i {
        lemma_runs_before_grows(s, i2, i);
    }
    if j < j2 {
        assert(digit_at(s, j));
    } else if j2 < j {
        assert(digit_at(s, j2));
    }
}

/// A run numbered 1 means at least two runs in all.
proof fn lemma_second_run_counted(s: Seq<char>, i: int, j: int)
    requires
        digit_run(s, i, j),
        runs_before(s, i) == 1,
    ensures
        runs_before(s, s.len() as int) >= 2,
{
    lemma_runs_before_grows(s, i, s.len() as int);
}

/// The track id of a link is its second maximal run of decimal digits: the
/// run `url[i..j]` (all digits, neither neighbour a digit) that exactly one
/// other run precedes.
pub proof fn lemma_track_id_of_link(url: Seq<char>, i: int, j: int)
    requires
        is_link(url),
        digit_run(url, i, j),
        runs_before(url, i) == 1,
    ensures
        spec_track_id(url) == Some(url.subrange(i, j)),
{
    reveal_strlit("http");
    assert(url.subrange(0, 4) =~= "http"@);
    let (i2, j2) = choose|i2: int, j2: int| digit_run(url, i2, j2) && runs_before(url, i2) == 1;
    lemma_digit_run_unique(url, i, j, i2, j2);
}

/// A link with fewer than two runs of decimal digits names no track.
pub proof fn lemma_track_id_of_link_missing(url: Seq<char>)
    requires
        is_link(url),
        runs_before(url, url.len() as int) < 2,
    ensures
        spec_track_id(url) is None,
{
    reveal_strlit("http");
    assert(url.subrange(0, 4) =~= "http"@);
    if exists|i: int, j: int| digit_run(url, i, j) && runs_before(url, i) == 1 {
        let (i, j) = choose|i: int, j: int| digit_run(url, i, j) && runs_before(url, i) == 1;
        lemma_second_run_counted(url, i, j);
    }
}

/// Beginning with `http` is being a link.
pub proof fn lemma_link_is_http_prefix(url: Seq<char>)
    ensures
        is_link(url) <==> has_prefix(url, "http"@),
{
    reveal_strlit("http");
    if is_link(url) {
        assert(url.subrange(0, 4) =~= "http"@);
    }
    if has_prefix(url, "http"@) {
        assert(url.subrange(0, 4)[0] == url[0]);
        assert(url.subrange(0, 4)[1] == url[1]);
        assert(url.subrange(0, 4)[2] == url[2]);
        assert(url.subrange(0, 4)[3] == url[3]);
    }
}

/// Text that does not begin with `http` is its own track id.
pub proof fn lemma_track_id_of_plain_text(url: Seq<char>)
    requires
        !is_link(url),
    ensures
        spec_track_id(url) == Some(url),
{
    reveal_strlit("http");
    if has_prefix(url, "http"@) {
        assert(url.subrange(0, 4)[0] == url[0]);
        assert(url.subrange(0, 4)[1] == url[1]);
        assert(url.subrange(0, 4)[2] == url[2]);
        assert(url.subrange(0, 4)[3] == url[3]);
    }
}

/// Picks the track id out of the runs of digits found in a link.
pub fn second_digit_run(digit_runs: Option<Vec<String>>) -> (r: Option<String>)
    ensures
        r matches Some(id) ==> digit_runs matches Some(runs) && runs@.len() >= 2 && id@
            == runs@[1]@,
        r is None ==> (digit_runs matches Some(runs) ==> runs@.len() < 2),
{
    match digit_runs {
        Some(mut runs) => {
            if runs.len() >= 2 {
                let id = runs.swap_remove(1);
                Some(id)
            } else {
                None
            }
        },
        None => None,
    }
}

/// The track id named by a link or an id.
pub fn track_id(url: &str) -> (r: Option<String>)
    ensures
        r matches Some(id) ==> spec_track_id(url@) == Some(id@),
        r is None ==> spec_track_id(url@) is None,
        is_link(url@) ==> (r matches Some(id) ==> is_kth_run(url@, 1, id@)),
        is_link(url@) ==> (r is None <==> runs_before(url@, url@.len() as int) < 2),
        !is_link(url@) ==> (r matches Some(id) && id@ == url@),
{
    proof {
        lemma_link_is_http_prefix(url@);
    }
    if starts_with(url, "http") {
        let runs = find_all("(\\d+)", url);
        let ghost found = runs;
        let r = second_digit_run(runs);
        proof {
            let s = url@;
            let v = found->0@;
            if exists|i: int, j: int| digit_run(s, i, j) && runs_before(s, i) == 1 {
                let (i, j) = choose|i: int, j: int| digit_run(s, i, j) && runs_before(s, i) == 1;
                lemma_second_run_counted(s, i, j);
                assert(is_kth_run(s, 1, v[1]@));
                let (i2, j2) = choose|i2: int, j2: int|
                    digit_run(s, i2, j2) && runs_before(s, i2) == 1 && v[1]@ == s.subrange(i2, j2);
                lemma_digit_run_unique(s, i, j, i2, j2);
            } else if v.len() >= 2 {
                assert(is_kth_run(s, 1, v[1]@));
            }
        }
        r
    } else {
        Some(text_of(url))
    }
}

/// The address of the download-info request for the track `id`.
pub open spec fn spec_info_url(id: Seq<char>) -> Seq<char> {
    "https://api.music.yandex.net/tracks/"@ + id + "/download-info?can_use_streaming=false"@
}

/// Builds the address of the download-info request for the track `id`.
pub fn info_url(id: &str) -> (r: String)
    ensures
        r@ == spec_info_url(id@),
{
    let mut url = text_of("https://api.music.yandex.net/tracks/");
    push_text(&mut url, id);
    push_text(&mut url, "/download-info?can_use_streaming=false");
    url
}

/// A download offer that the player takes: MP3 at 320 kbps or more.
pub open spec fn suitable(offer: TrackInfoResult) -> bool {
    offer.codec@ == "mp3"@ && offer.bitrate_in_kbps >= 320
}

/// `i` is the position of the first suitable offer in `offers`.
pub open spec fn first_suitable(offers: Seq<TrackInfoResult>, i: int) -> bool {
    &&& 0 <= i < offers.len()
    &&& suitable(offers[i])
    &&& forall|j: int| 0 <= j < i ==> !suitable(#[trigger] offers[j])
}

/// The download-info address of the first suitable offer; `None` when no
/// offer is suitable.
pub open spec fn preferred_download(offers: Seq<TrackInfoResult>) -> Option<Seq<char>> {
    if exists|i: int| first_suitable(offers, i) {
        let i = choose|i: int| first_suitable(offers, i);
        Some(offers[i].download_info_url@)
    } else {
        None
    }
}

/// There is at most one first suitable offer.
proof fn lemma_first_suitable_unique(offers: Seq<TrackInfoResult>, i: int, j: int)
    requires
        first_suitable(offers, i),
        first_suitable(offers, j),
    ensures
        i == j,
{
    if i < j {
        assert(!suitable(offers[i]));
    } else if j < i {
        assert(!suitable(offers[j]));
    }
}

/// The download-info address of the first suitable offer, if there is one.
pub fn select_download_url(info: &TrackInfo) -> (r: Option<String>)
    ensures
        r matches Some(url) ==> preferred_download(info.result@) == Some(url@),
        r is None ==> preferred_download(info.result@) is None,
{
    let offers = &info.result;
    let mut i: usize = 0;
    while i < offers.len()
        invariant
            offers@ == info.result@,
            i <= offers@.len(),
            forall|j: int| 0 <= j < i ==> !suitable(#[trigger] offers@[j]),
        decreases offers@.len() - i,
    {
        let offer = &offers[i];
        if same_text(offer.codec.as_str(), "mp3") && offer.bitrate_in_kbps >= 320 {
            let url = offer.download_info_url.clone();
            proof {
                assert(first_suitable(offers@, i as int));
                let k = choose|k: int| first_suitable(offers@, k);
                lemma_first_suitable_unique(offers@, i as int, k);
            }
            return Some(url);
        }
        i = i + 1;
    }
    assert(!exists|k: int| first_suitable(offers@, k));
    None
}

/// The salt that the audio host expects in front of the signed path.
pub open spec fn signing_salt() -> Seq<char> {
    "XGRlBW9FXlekgbPrRHuSiA"@
}

/// The path that `mp3_url` can sign: it has a first character, and that
/// character takes one byte in UTF-8.
pub open spec fn signable_path(path: Seq<char>) -> bool {
    path.len() > 0 && (path[0] as u32) < 128
}

/// The address of the MP3 file that `d` describes: the host, the hex MD5
/// signature of salt, path without its first character and `s`, then `ts`
/// and the path.
pub open spec fn spec_mp3_url(d: DownloadInfo) -> Seq<char> {
    "https://"@ + d.host@ + "/get-mp3/"@ + lower_hex(
        md5_digest(signing_salt() + d.path@.skip(1) + d.s@),
    ) + "/"@ + d.ts@ + d.path@
}

/// Builds the address of the MP3 file that `d` describes.
pub fn mp3_url(d: &DownloadInfo) -> (r: String)
    requires
        signable_path(d.path@),
    ensures
        r@ == spec_mp3_url(*d),
{
    let path = d.path.as_str();
    let tail = path.substring_char(1, path.unicode_len());
    let mut seed_text = text_of("XGRlBW9FXlekgbPrRHuSiA");
    push_text(&mut seed_text, tail);
    push_text(&mut seed_text, d.s.as_str());
    let seed = md5_of(seed_text.as_str());
    let mut url = text_of("https://");
    push_text(&mut url, d.host.as_str());
    push_text(&mut url, "/get-mp3/");
    let hex = lower_hex_text(&seed);
    push_text(&mut url, hex.as_str());
    push_text(&mut url, "/");
    push_text(&mut url, d.ts.as_str());
    push_text(&mut url, path);
    assert(tail@ == d.path@.skip(1));
    url
}

/// The message with which a track lookup fails.
pub open spec fn lookup_failure() -> Seq<char> {
    "Failed to get track info"@
}

/// The command line that downloads the file at `url` to standard output.
pub open spec fn spec_download_command(url: Seq<char>) -> Seq<Seq<char>> {
    seq!["curl"@, url, "--output"@, "-"@]
}

/// The command line that turns MP3 on standard input into stereo 48 kHz
/// 32-bit float PCM on standard output.
pub open spec fn spec_transcode_command() -> Seq<Seq<char>> {
    seq![
        "ffmpeg"@,
        "-i"@,
        "-"@,
        "-f"@,
        "s16le"@,
        "-ac"@,
        "2"@,
        "-ar"@,
        "48000"@,
        "-acodec"@,
        "pcm_f32le"@,
        "-"@,
    ]
}

/// The texts of a list of strings.
pub open spec fn texts(v: Seq<String>) -> Seq<Seq<char>> {
    v.map_values(|a: String| a@)
}

/// How a track is played: the download command, whose output feeds the
/// transcoder, whose output is the audio.
pub struct StreamPlan {
    pub url: String,
    pub download_command: Vec<String>,
    pub transcode_command: Vec<String>,
}

fn push_arg(v: &mut Vec<String>, a: &str)
    ensures
        texts(final(v)@) == texts(old(v)@).push(a@),
{
    v.push(text_of(a));
    assert(texts(v@) =~= texts(old(v)@).push(a@));
}

/// The plan that streams the MP3 file at `url`.
pub fn stream_plan(url: String) -> (p: StreamPlan)
    ensures
        p.url@ == url@,
        texts(p.download_command@) == spec_download_command(url@),
        texts(p.transcode_command@) == spec_transcode_command(),
{
    let mut download: Vec<String> = Vec::new();
    push_arg(&mut download, "curl");
    push_arg(&mut download, url.as_str());
    push_arg(&mut download, "--output");
    push_arg(&mut download, "-");
    let mut transcode: Vec<String> = Vec::new();
    push_arg(&mut transcode, "ffmpeg");
    push_arg(&mut transcode, "-i");
    push_arg(&mut transcode, "-");
    push_arg(&mut transcode, "-f");
    push_arg(&mut transcode, "s16le");
    push_arg(&mut transcode, "-ac");
    push_arg(&mut transcode, "2");
    push_arg(&mut transcode, "-ar");
    push_arg(&mut transcode, "48000");
    push_arg(&mut transcode, "-acodec");
    push_arg(&mut transcode, "pcm_f32le");
    push_arg(&mut transcode, "-");
    assert(texts(download@) =~= spec_download_command(url@));
    assert(texts(transcode@) =~= spec_transcode_command());
    StreamPlan { url, download_command: download, transcode_command: transcode }
}

/// Where a track lookup stands.
pub enum TrackFetch {
    /// The download-info request is out.
    AwaitingTrackInfo,
    /// The request for the chosen download offer is out.
    AwaitingDownloadInfo,
    /// The lookup is over.
    Finished,
}

/// What came back from the service.
pub enum FetchEvent {
    /// The download-info request was answered with a status other than success.
    TrackInfoRefused,
    /// The download-info request succeeded with this answer.
    TrackInfoReceived(TrackInfo),
    /// The chosen offer's address answered with this description of the file.
    DownloadInfoReceived(DownloadInfo),
}

/// What the lookup asks for next.
pub enum FetchAction {
    /// Send an authorized GET request to this address.
    Get(String),
    /// Play the track as this plan says; the lookup succeeded.
    Stream(StreamPlan),
    /// The lookup failed with this message.
    Fail(String),
}

impl TrackFetch {
    /// The events that the lookup can take in this state.
    pub open spec fn accepts(self, event: FetchEvent) -> bool {
        match self {
            TrackFetch::AwaitingTrackInfo => event is TrackInfoRefused || event is TrackInfoReceived,
            TrackFetch::AwaitingDownloadInfo => match event {
                FetchEvent::DownloadInfoReceived(d) => signable_path(d.path@),
                _ => false,
            },
            TrackFetch::Finished => false,
        }
    }

    /// How many more answers the lookup can wait for at most.
    pub open spec fn steps_left(self) -> nat {
        match self {
            TrackFetch::AwaitingTrackInfo => 2,
            TrackFetch::AwaitingDownloadInfo => 1,
            TrackFetch::Finished => 0,
        }
    }

    /// Starts the lookup of track `id`: the download-info request goes out.
    pub fn begin(id: &str) -> (r: (TrackFetch, FetchAction))
        ensures
            r.0 is AwaitingTrackInfo,
            r.1 matches FetchAction::Get(url) && url@ == spec_info_url(id@),
    {
        (TrackFetch::AwaitingTrackInfo, FetchAction::Get(info_url(id)))
    }

    /// Takes one answer from the service and says what to do next.
    pub fn step(self, event: FetchEvent) -> (r: (TrackFetch, FetchAction))
        requires
            self.accepts(event),
        ensures
            r.0.steps_left() < self.steps_left(),
            r.0 is Finished <==> !(r.1 is Get),
            match event {
                FetchEvent::TrackInfoRefused => r.1 matches FetchAction::Fail(m) && m@
                    == lookup_failure(),
                FetchEvent::TrackInfoReceived(info) => match preferred_download(info.result@) {
                    Some(url) => r.0 is AwaitingDownloadInfo && (r.1 matches FetchAction::Get(u)
                        && u@ == url),
                    None => r.1 matches FetchAction::Fail(m) && m@ == lookup_failure(),
                },
                FetchEvent::DownloadInfoReceived(d) => r.1 matches FetchAction::Stream(p) && p.url@
                    == spec_mp3_url(d) && texts(p.download_command@) == spec_download_command(
                    spec_mp3_url(d),
                ) && texts(p.transcode_command@) == spec_transcode_command(),
            },
    {
        match event {
            FetchEvent::TrackInfoRefused => (
                TrackFetch::Finished,
                FetchAction::Fail(text_of("Failed to get track info")),
            ),
            FetchEvent::TrackInfoReceived(info) => match select_download_url(&info) {
                Some(url) => (TrackFetch::AwaitingDownloadInfo, FetchAction::Get(url)),
                None => (TrackFetch::Finished, FetchAction::Fail(text_of("Failed to get track info"))),
            },
            FetchEvent::DownloadInfoReceived(d) => {
                let url = mp3_url(&d);
                (TrackFetch::Finished, FetchAction::Stream(stream_plan(url)))
            },
        }
    }
}

/// A lookup with no steps left is finished, and a finished lookup takes no
/// further answer.
pub proof fn lemma_fetch_ends(state: TrackFetch, event: FetchEvent)
    ensures
        state.steps_left() == 0 <==> state is Finished,
        state is Finished ==> !state.accepts(event),
{
}

} // verus!
