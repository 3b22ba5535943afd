//! Configuration values and the rules that resolve them: an environment
//! value wins over a command-line value, and a fixed default stands in
//! when neither is given. Reading the environment and the command line is
//! the caller's business; the rules live here.

use vstd::prelude::*;

verus! {

/// The update-rate tier requested from a streaming provider.
#[derive(Clone, Copy, PartialEq, Eq, Structural, Debug)]
pub enum ChannelType {
    RealTime,
    FixedRate1ms,
    FixedRate50ms,
    FixedRate200ms,
}

/// The wire name of each channel tier.
pub open spec fn spec_channel_name(channel: ChannelType) -> Seq<char> {
    match channel {
        ChannelType::RealTime => "real_time"@,
        ChannelType::FixedRate1ms => "fixed_rate@1ms"@,
        ChannelType::FixedRate50ms => "fixed_rate@50ms"@,
        ChannelType::FixedRate200ms => "fixed_rate@200ms"@,
    }
}

impl ChannelType {
    /// The channel's wire name.
    pub fn channel_name(&self) -> (name: String)
        ensures
            name@ == spec_channel_name(*self),
    {
        match self {
            ChannelType::RealTime => "real_time".to_owned(),
            ChannelType::FixedRate1ms => "fixed_rate@1ms".to_owned(),
            ChannelType::FixedRate50ms => "fixed_rate@50ms".to_owned(),
            ChannelType::FixedRate200ms => "fixed_rate@200ms".to_owned(),
        }
    }
}

/// The command-line surface: every value optional, each overridable by an
/// environment variable of a parallel name that takes precedence.
pub struct Args {
    pub private_key: Option<String>,
    pub auth_header: Option<String>,
    pub ws_url: Option<String>,
    pub cluster: Option<String>,
    pub price_feeds: Option<String>,
    pub channel: Option<ChannelType>,
}

/// Relies on `str::chars` (and `Iterator::collect`): yields exactly the
/// string's characters, in order.
#[verifier::external_body]
pub(crate) fn string_to_chars(s: &str) -> (out: Vec<char>)
    ensures
        out@ == s@,
{
    s.chars().collect()
}

/// Relies on `String as FromIterator<char>`: collecting characters yields
/// exactly the string of those characters, in order.
#[verifier::external_body]
pub(crate) fn chars_to_string(v: &Vec<char>) -> (out: String)
    ensures
        out@ == v@,
{
    v.iter().collect()
}

/// The endpoint URL for the price feed: environment first, then the
/// command line, then the local default.
pub fn get_ws_url(env_url: Option<String>, cli_url: Option<String>) -> (url: String)
    ensures
        env_url matches Some(u) ==> url@ == u@,
        env_url is None ==> (cli_url matches Some(u) ==> url@ == u@),
        env_url is None && cli_url is None ==> url@ == "ws://localhost:8765"@,
{
    match env_url {
        Some(u) => u,
        None => match cli_url {
            Some(u) => u,
            None => "ws://localhost:8765".to_owned(),
        },
    }
}

/// The authorization credential for the feed connection: environment
/// first, then the command line. There is no default: a caller with
/// neither has nothing to connect with.
pub fn get_auth_header(env_auth: Option<String>, cli_auth: Option<String>) -> (auth: String)
    requires
        env_auth is Some || cli_auth is Some,
    ensures
        env_auth matches Some(u) ==> auth@ == u@,
        env_auth is None ==> (cli_auth matches Some(u) ==> auth@ == u@),
{
    match env_auth {
        Some(u) => u,
        None => cli_auth.unwrap(),
    }
}

/// The ledger RPC endpoint: environment first, then the command line,
/// then the public default cluster.
pub fn get_solana_cluster(env_cluster: Option<String>, cli_cluster: Option<String>) -> (cluster:
    String)
    ensures
        env_cluster matches Some(u) ==> cluster@ == u@,
        env_cluster is None ==> (cli_cluster matches Some(u) ==> cluster@ == u@),
        env_cluster is None && cli_cluster is None ==> cluster@ == "https://devnet.magicblock.app/"@,
{
    match env_cluster {
        Some(u) => u,
        None => match cli_cluster {
            Some(u) => u,
            None => "https://devnet.magicblock.app/".to_owned(),
        },
    }
}

/// The signing key: environment first, then the command line, then the
/// freshly generated key the caller offers as a fallback.
pub fn get_private_key(
    env_key: Option<String>,
    cli_key: Option<String>,
    generated: String,
) -> (key: String)
    ensures
        env_key matches Some(u) ==> key@ == u@,
        env_key is None ==> (cli_key matches Some(u) ==> key@ == u@),
        env_key is None && cli_key is None ==> key@ == generated@,
{
    match env_key {
        Some(u) => u,
        None => match cli_key {
            Some(u) => u,
            None => generated,
        },
    }
}

/// ASCII upper-case letters folded to lower case; all else untouched.
pub open spec fn spec_fold_case(c: char) -> char {
    if 'A' <= c && c <= 'Z' {
        ((c as u8) + 32) as char
    } else {
        c
    }
}

/// Whether two character strings agree up to ASCII case.
pub open spec fn spec_eq_ignore_ascii_case(a: Seq<char>, b: Seq<char>) -> bool {
    &&& a.len() == b.len()
    &&& forall|i: int| 0 <= i < a.len() ==> spec_fold_case(a[i]) == spec_fold_case(b[i])
}

fn fold_case(c: char) -> (folded: char)
    ensures
        folded == spec_fold_case(c),
{
    if 'A' <= c && c <= 'Z' {
        ((c as u8) + 32) as char
    } else {
        c
    }
}

fn eq_ignore_ascii_case(a: &Vec<char>, b: &Vec<char>) -> (eq: bool)
    ensures
        eq == spec_eq_ignore_ascii_case(a@, b@),
{
    if a.len() != b.len() {
        return false;
    }
    let mut i: usize = 0;
    while i < a.len()
        invariant
            i <= a@.len(),
            a@.len() == b@.len(),
            forall|j: int| 0 <= j < i ==> spec_fold_case(a@[j]) == spec_fold_case(b@[j]),
        decreases a@.len() - i,
    {
        if fold_case(a[i]) != fold_case(b[i]) {
            return false;
        }
        i += 1;
    }
    true
}

/// The channel whose wire name the given characters spell, up to ASCII
/// case, if any.
pub open spec fn spec_channel_of(s: Seq<char>) -> Option<ChannelType> {
    if spec_eq_ignore_ascii_case(s, spec_channel_name(ChannelType::RealTime)) {
        Some(ChannelType::RealTime)
    } else if spec_eq_ignore_ascii_case(s, spec_channel_name(ChannelType::FixedRate1ms)) {
        Some(ChannelType::FixedRate1ms)
    } else if spec_eq_ignore_ascii_case(s, spec_channel_name(ChannelType::FixedRate50ms)) {
        Some(ChannelType::FixedRate50ms)
    } else if spec_eq_ignore_ascii_case(s, spec_channel_name(ChannelType::FixedRate200ms)) {
        Some(ChannelType::FixedRate200ms)
    } else {
        None
    }
}

/// Parses a channel name, ignoring ASCII case.
pub fn channel_of_name(s: &str) -> (channel: Option<ChannelType>)
    ensures
        channel == spec_channel_of(s@),
{
    let chars = string_to_chars(s);
    let real_time = string_to_chars("real_time");
    if eq_ignore_ascii_case(&chars, &real_time) {
        return Some(ChannelType::RealTime);
    }
    let rate_1ms = string_to_chars("fixed_rate@1ms");
    if eq_ignore_ascii_case(&chars, &rate_1ms) {
        return Some(ChannelType::FixedRate1ms);
    }
    let rate_50ms = string_to_chars("fixed_rate@50ms");
    if eq_ignore_ascii_case(&chars, &rate_50ms) {
        return Some(ChannelType::FixedRate50ms);
    }
    let rate_200ms = string_to_chars("fixed_rate@200ms");
    if eq_ignore_ascii_case(&chars, &rate_200ms) {
        return Some(ChannelType::FixedRate200ms);
    }
    None
}

/// The channel name to subscribe with: a recognized environment value
/// first — matched against the channel names ignoring ASCII case — then
/// the command-line channel, then the 50 ms fixed-rate default.
pub fn get_channel(env_channel: Option<String>, cli_channel: Option<ChannelType>) -> (channel:
    String)
    requires
        env_channel matches Some(s) ==> spec_channel_of(s@) is Some,
    ensures
        env_channel matches Some(s) ==> (spec_channel_of(s@) matches Some(c) && channel@
            == spec_channel_name(c)),
        env_channel is None ==> (cli_channel matches Some(c) ==> channel@ == spec_channel_name(c)),
        env_channel is None && cli_channel is None ==> channel@ == spec_channel_name(
            ChannelType::FixedRate50ms,
        ),
{
    match env_channel {
        Some(s) => {
            let parsed = channel_of_name(s.as_str());
            parsed.unwrap().channel_name()
        },
        None => match cli_channel {
            Some(c) => c.channel_name(),
            None => ChannelType::FixedRate50ms.channel_name(),
        },
    }
}

/// The whitespace that symbol entries are trimmed of.
pub open spec fn spec_is_space(c: char) -> bool {
    c == ' ' || c == '\t' || c == '\n' || c == '\r'
}

/// The characters left when leading and trailing whitespace is dropped.
pub open spec fn spec_trim(s: Seq<char>) -> Seq<char>
    decreases s.len(),
{
    if s.len() > 0 && spec_is_space(s.first()) {
        spec_trim(s.drop_first())
    } else if s.len() > 0 && spec_is_space(s.last()) {
        spec_trim(s.drop_last())
    } else {
        s
    }
}

fn is_space(c: char) -> (space: bool)
    ensures
        space == spec_is_space(c),
{
    c == ' ' || c == '\t' || c == '\n' || c == '\r'
}

fn trim_chars(v: &Vec<char>) -> (out: Vec<char>)
    ensures
        out@ == spec_trim(v@),
{
    let mut start: usize = 0;
    let mut end: usize = v.len();
    proof {
        assert(v@.subrange(0, v@.len() as int) =~= v@);
    }
    while start < end && is_space(v[start])
        invariant
            start <= end,
            end <= v@.len(),
            spec_trim(v@) == spec_trim(v@.subrange(start as int, end as int)),
        decreases end - start,
    {
        proof {
            let sub = v@.subrange(start as int, end as int);
            assert(sub.drop_first() =~= v@.subrange(start as int + 1, end as int));
        }
        start += 1;
    }
    while start < end && is_space(v[end - 1])
        invariant
            start <= end,
            end <= v@.len(),
            spec_trim(v@) == spec_trim(v@.subrange(start as int, end as int)),
            start < end ==> !spec_is_space(v@[start as int]),
        decreases end - start,
    {
        proof {
            let sub = v@.subrange(start as int, end as int);
            assert(sub.drop_last() =~= v@.subrange(start as int, end as int - 1));
        }
        end -= 1;
    }
    let mut out: Vec<char> = Vec::new();
    let mut i: usize = start;
    while i < end
        invariant
            start <= i <= end,
            end <= v@.len(),
            out@ =~= v@.subrange(start as int, i as int),
        decreases end - i,
    {
        out.push(v[i]);
        proof {
            assert(out@ =~= v@.subrange(start as int, i + 1));
        }
        i += 1;
    }
    proof {
        assert(out@ =~= v@.subrange(start as int, end as int));
    }
    out
}

/// The string the given segments spell when joined with commas.
pub open spec fn spec_join_commas(parts: Seq<Seq<char>>) -> Seq<char>
    decreases parts.len(),
{
    if parts.len() == 0 {
        Seq::empty()
    } else if parts.len() == 1 {
        parts[0]
    } else {
        parts[0] + seq![','] + spec_join_commas(parts.drop_first())
    }
}

proof fn lemma_join_push(parts: Seq<Seq<char>>, last: Seq<char>)
    ensures
        spec_join_commas(parts.push(last)) == if parts.len() == 0 {
            last
        } else {
            spec_join_commas(parts) + seq![','] + last
        },
    decreases parts.len(),
{
    if parts.len() == 0 {
        assert(parts.push(last).len() == 1);
        assert(parts.push(last)[0] == last);
        assert(spec_join_commas(parts.push(last)) == last);
    } else if parts.len() == 1 {
        assert(parts.push(last).drop_first() =~= seq![last]);
        assert(parts.push(last)[0] == parts[0]);
        assert(spec_join_commas(seq![last]) == last);
        assert(spec_join_commas(parts.push(last)) == parts[0] + seq![','] + last);
        assert(spec_join_commas(parts) == parts[0]);
    } else {
        assert(parts.push(last).drop_first() =~= parts.drop_first().push(last));
        assert(parts.push(last)[0] == parts[0]);
        lemma_join_push(parts.drop_first(), last);
        assert(parts[0] + seq![','] + (spec_join_commas(parts.drop_first()) + seq![','] + last)
            =~= (parts[0] + seq![','] + spec_join_commas(parts.drop_first())) + seq![','] + last);
    }
}

fn split_commas(v: &Vec<char>) -> (parts: Vec<Vec<char>>)
    ensures
        parts@.len() >= 1,
        spec_join_commas(parts@.map_values(|p: Vec<char>| p@)) == v@,
        forall|i: int| 0 <= i < parts@.len() ==> !(#[trigger] parts@[i]@).contains(','),
{
    let mut parts: Vec<Vec<char>> = Vec::new();
    let mut cur: Vec<char> = Vec::new();
    let mut i: usize = 0;
    while i < v.len()
        invariant
            i <= v@.len(),
            spec_join_commas(parts@.map_values(|p: Vec<char>| p@).push(cur@)) == v@.take(i as int),
            forall|j: int| 0 <= j < parts@.len() ==> !(#[trigger] parts@[j]@).contains(','),
            !cur@.contains(','),
        decreases v@.len() - i,
    {
        let ghost ps = parts@.map_values(|p: Vec<char>| p@);
        let c = v[i];
        if c == ',' {
            proof {
                lemma_join_push(ps, cur@);
                lemma_join_push(ps.push(cur@), Seq::empty());
                assert(spec_join_commas(ps.push(cur@).push(Seq::empty())) =~= v@.take(i as int)
                    + seq![',']);
                assert(v@.take(i + 1) =~= v@.take(i as int) + seq![',']);
            }
            parts.push(cur);
            cur = Vec::new();
            proof {
                assert(parts@.map_values(|p: Vec<char>| p@) =~= ps.push(
                    parts@[parts@.len() - 1]@,
                ));
            }
        } else {
            proof {
                lemma_join_push(ps, cur@);
                lemma_join_push(ps, cur@.push(c));
                assert(spec_join_commas(ps.push(cur@.push(c))) =~= v@.take(i as int) + seq![c]);
                assert(v@.take(i + 1) =~= v@.take(i as int) + seq![c]);
                assert forall|k: int| 0 <= k < cur@.push(c).len() implies cur@.push(c)[k]
                    != ',' by {
                    if k < cur@.len() {
                        assert(!cur@.contains(','));
                    }
                }
                assert(!cur@.push(c).contains(','));
            }
            cur.push(c);
        }
        i += 1;
    }
    proof {
        assert(v@.take(i as int) =~= v@);
        assert(parts@.map_values(|p: Vec<char>| p@).push(cur@) =~= parts@.push(cur).map_values(
            |p: Vec<char>| p@,
        ));
    }
    parts.push(cur);
    parts
}

/// Whether the returned symbol names are exactly the comma-separated
/// entries of the source, each trimmed of surrounding whitespace.
pub open spec fn spec_symbols_of(source: Seq<char>, names: Seq<Seq<char>>) -> bool {
    exists|segments: Seq<Seq<char>>|
        {
            &&& segments.len() >= 1
            &&& spec_join_commas(segments) == source
            &&& forall|i: int| 0 <= i < segments.len() ==> !(#[trigger] segments[i]).contains(',')
            &&& names == segments.map_values(|p: Seq<char>| spec_trim(p))
        }
}

/// The symbols to subscribe to: the environment's comma-separated list
/// first, then the command line's, then the single default symbol; each
/// entry trimmed of surrounding whitespace.
pub fn get_price_feeds(env_feeds: Option<String>, cli_feeds: Option<String>) -> (feeds: Vec<
    String,
>)
    ensures
        env_feeds matches Some(s) ==> spec_symbols_of(s@, feeds@.map_values(|f: String| f@)),
        env_feeds is None ==> (cli_feeds matches Some(s) ==> spec_symbols_of(
            s@,
            feeds@.map_values(|f: String| f@),
        )),
        env_feeds is None && cli_feeds is None ==> spec_symbols_of(
            "SOLUSD"@,
            feeds@.map_values(|f: String| f@),
        ),
{
    let source: String = match env_feeds {
        Some(s) => s,
        None => match cli_feeds {
            Some(s) => s,
            None => "SOLUSD".to_owned(),
        },
    };
    let chars = string_to_chars(source.as_str());
    let parts = split_commas(&chars);
    let mut feeds: Vec<String> = Vec::new();
    let mut i: usize = 0;
    while i < parts.len()
        invariant
            i <= parts@.len(),
            feeds@.len() == i,
            forall|j: int| 0 <= j < i ==> (#[trigger] feeds@[j])@ == spec_trim(parts@[j]@),
        decreases parts@.len() - i,
    {
        let trimmed = trim_chars(&parts[i]);
        feeds.push(chars_to_string(&trimmed));
        i += 1;
    }
    proof {
        let segments = parts@.map_values(|p: Vec<char>| p@);
        assert(feeds@.map_values(|f: String| f@) =~= segments.map_values(
            |p: Seq<char>| spec_trim(p),
        ));
        assert(spec_symbols_of(source@, feeds@.map_values(|f: String| f@)));
    }
    feeds
}

} // verus!
