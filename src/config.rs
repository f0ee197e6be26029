//! Settings of a web service.
use vstd::prelude::*;

verus! {

/// The most detailed kind of log message that is kept.
#[derive(Clone, Copy, Debug, PartialEq, Eq, PartialOrd, Ord, Hash, Structural)]
pub enum LogLevel {
    Off,
    Error,
    Warn,
    Info,
    Debug,
    Trace,
}

/// Settings that every service has.
#[derive(Clone, Debug, PartialEq, Eq, PartialOrd, Ord, Hash)]
pub struct BaseConfig {
    /// The TCP port to listen on.
    pub port: u16,
    /// The most detailed kind of log message that is kept.
    pub log_level: LogLevel,
    /// The origins that cross-origin requests may come from, separated by commas.
    pub allowed_origins: String,
}

/// The pieces of `s` between commas, in order: a text without a comma is a
/// single piece, and each comma starts a new one, which may be empty.
pub open spec fn split_commas(s: Seq<char>) -> Seq<Seq<char>>
    decreases s.len(),
{
    if s.len() == 0 {
        seq![Seq::<char>::empty()]
    } else {
        let init = split_commas(s.drop_last());
        if s.last() == ',' {
            init.push(Seq::<char>::empty())
        } else {
            init.update(init.len() - 1, init.last().push(s.last()))
        }
    }
}

/// The texts of a sequence of strings.
pub open spec fn texts(v: Seq<String>) -> Seq<Seq<char>> {
    v.map_values(|o: String| o@)
}

impl BaseConfig {
    /// The allowed origins, one for each comma-separated piece of
    /// `allowed_origins`.
    pub fn origin_list(&self) -> (r: Vec<String>)
        ensures
            texts(r@) == split_commas(self.allowed_origins@),
    {
        let s = self.allowed_origins.as_str();
        let n = s.unicode_len();
        let mut pieces: Vec<String> = Vec::new();
        let mut start: usize = 0;
        let mut i: usize = 0;
        assert(s@.subrange(0, 0) =~= Seq::<char>::empty());
        assert(texts(pieces@) =~= Seq::<Seq<char>>::empty());
        assert(texts(pieces@).push(s@.subrange(0, 0)) =~= seq![Seq::<char>::empty()]);
        while i < n
            invariant
                n == s@.len(),
                s@ == self.allowed_origins@,
                start <= i <= n,
                texts(pieces@).push(s@.subrange(start as int, i as int)) == split_commas(
                    s@.subrange(0, i as int),
                ),
            decreases n - i,
        {
            let c = s.get_char(i);
            let ghost prefix = s@.subrange(0, i as int);
            assert(s@.subrange(0, i + 1).drop_last() =~= prefix);
            assert(s@.subrange(0, i + 1).last() == c);
            if c == ',' {
                let piece = String::from_str(s.substring_char(start, i));
                let ghost old_pieces = pieces@;
                pieces.push(piece);
                assert(texts(pieces@) =~= texts(old_pieces).push(piece@));
                assert(s@.subrange(i + 1, i + 1) =~= Seq::<char>::empty());
                start = i + 1;
            } else {
                assert(s@.subrange(start as int, i as int).push(c) =~= s@.subrange(
                    start as int,
                    i + 1,
                ));
            }
            i += 1;
        }
        assert(s@.subrange(0, n as int) =~= s@);
        let last = String::from_str(s.substring_char(start, n));
        let ghost old_pieces = pieces@;
        pieces.push(last);
        assert(texts(pieces@) =~= texts(old_pieces).push(last@));
        pieces
    }
}

impl Default for BaseConfig {
    /// Port 8000, informational logging, no allowed origins.
    fn default() -> (r: Self)
        ensures
            r.port == 8000,
            r.log_level == LogLevel::Info,
            r.allowed_origins@ == Seq::<char>::empty(),
    {
        BaseConfig { port: 8000, log_level: LogLevel::Info, allowed_origins: String::new() }
    }
}

/// Settings of the metrics that a service exports.
#[derive(Clone, Debug, PartialEq, Eq, PartialOrd, Ord, Hash)]
pub struct MetricsConfig {
    /// The prefix of every metric's name.
    pub metrics_name: String,
    /// Labels, as name and value, added to every metric.
    pub extra_labels: Vec<(String, String)>,
}

impl Default for MetricsConfig {
    /// An empty prefix and no extra labels.
    fn default() -> (r: Self)
        ensures
            r.metrics_name@ == Seq::<char>::empty(),
            r.extra_labels@ == Seq::<(String, String)>::empty(),
    {
        MetricsConfig { metrics_name: String::new(), extra_labels: Vec::new() }
    }
}

} // verus!
