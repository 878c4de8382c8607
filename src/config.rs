//! Service settings.
use crate::scope::views;
use vstd::prelude::*;
use vstd::string::StringExecFns;

verus! {

/// The settings of the service: where it listens, where it stores, what it
/// may scan, and which optional tools are switched on.
#[derive(Clone, Debug)]
pub struct AppConfig {
    pub host: String,
    pub port: u16,
    pub database_url: String,
    pub scope_allowlist: Vec<String>,
    pub profile_default_timeout_secs: u64,
    pub feature_nuclei: bool,
    pub feature_zap: bool,
    pub feature_nikto: bool,
    pub feature_ffuf: bool,
    pub feature_amass: bool,
}

impl Default for AppConfig {
    /// Listens on 127.0.0.1:8080, stores in `sqlite://cyberguardian.db`,
    /// may scan only `127.0.0.1/32` and `localhost`, gives a profile 60
    /// seconds, and has every optional tool switched off.
    fn default() -> (r: Self)
        ensures
            r.host@ == "127.0.0.1"@,
            r.port == 8080,
            r.database_url@ == "sqlite://cyberguardian.db"@,
            r.scope_allowlist@.map_values(|s: String| s@) == seq!["127.0.0.1/32"@, "localhost"@],
            r.profile_default_timeout_secs == 60,
            !r.feature_nuclei && !r.feature_zap && !r.feature_nikto && !r.feature_ffuf && !r.feature_amass,
    {
        let scope_allowlist = vec![String::from_str("127.0.0.1/32"), String::from_str("localhost")];
        assert(scope_allowlist@.map_values(|s: String| s@) =~= seq!["127.0.0.1/32"@, "localhost"@]);
        AppConfig {
            host: String::from_str("127.0.0.1"),
            port: 8080,
            database_url: String::from_str("sqlite://cyberguardian.db"),
            scope_allowlist,
            profile_default_timeout_secs: 60,
            feature_nuclei: false,
            feature_zap: false,
            feature_nikto: false,
            feature_ffuf: false,
            feature_amass: false,
        }
    }
}

/// The pieces of `s` between commas, in order: one more than there are
/// commas, each possibly empty.
pub open spec fn split_commas(s: Seq<char>) -> Seq<Seq<char>>
    decreases s.len(),
{
    if s.len() == 0 {
        seq![Seq::empty()]
    } else {
        let init = split_commas(s.drop_last());
        if s.last() == ',' {
            init.push(Seq::empty())
        } else {
            init.update(init.len() - 1, init.last().push(s.last()))
        }
    }
}

/// `s` without its leading and trailing white space.
pub uninterp spec fn trimmed(s: Seq<char>) -> Seq<char>;

/// Relies on `str::trim`, which strips leading and trailing white space and
/// depends on the text alone.
#[verifier::external_body]
fn trim_text(s: &str) -> (r: String)
    ensures
        r@ == trimmed(s@),
{
    s.trim().to_string()
}

/// Reads a comma-separated scope allowlist: each piece between commas,
/// trimmed of surrounding white space, in order.
pub fn parse_allowlist(raw: &str) -> (r: Vec<String>)
    ensures
        views(r@) == split_commas(raw@).map_values(|p: Seq<char>| trimmed(p)),
{
    let n = raw.unicode_len();
    let mut out: Vec<String> = Vec::new();
    let mut start: usize = 0;
    let mut i: usize = 0;
    assert(raw@.take(0) =~= Seq::<char>::empty());
    assert(raw@.subrange(0, 0) =~= Seq::<char>::empty());
    while i < n
        invariant
            n == raw@.len(),
            start <= i <= n,
            out@.len() + 1 == split_commas(raw@.take(i as int)).len(),
            forall|k: int|
                0 <= k < out@.len() ==> #[trigger] out@[k]@ == trimmed(split_commas(raw@.take(i as int))[k]),
            split_commas(raw@.take(i as int)).last() == raw@.subrange(start as int, i as int),
        decreases n - i,
    {
        let ghost prev = raw@.take(i as int);
        let ghost cur = raw@.take(i + 1);
        let ghost sp = split_commas(prev);
        let ghost out0 = out@;
        assert(cur.drop_last() =~= prev);
        assert(cur.last() == raw@[i as int]);
        if raw.get_char(i) == ',' {
            let piece = trim_text(raw.substring_char(start, i));
            out.push(piece);
            start = i + 1;
            assert(split_commas(cur) == sp.push(Seq::empty()));
            assert(raw@.subrange(start as int, i + 1) =~= Seq::<char>::empty());
            assert forall|k: int| 0 <= k < out@.len() implies #[trigger] out@[k]@ == trimmed(split_commas(cur)[k]) by {
                if k < out0.len() {
                    assert(out@[k] == out0[k]);
                }
            }
        } else {
            assert(raw@.subrange(start as int, i + 1) =~= raw@.subrange(start as int, i as int).push(raw@[i as int]));
            assert(split_commas(cur) == sp.update(sp.len() - 1, sp.last().push(raw@[i as int])));
            assert forall|k: int| 0 <= k < out@.len() implies #[trigger] out@[k]@ == trimmed(split_commas(cur)[k]) by {
                assert(split_commas(cur)[k] == sp[k]);
            }
        }
        i = i + 1;
    }
    let ghost out0 = out@;
    let last = trim_text(raw.substring_char(start, n));
    out.push(last);
    assert(raw@.take(n as int) =~= raw@);
    assert(views(out@) =~= split_commas(raw@).map_values(|p: Seq<char>| trimmed(p))) by {
        assert forall|k: int| 0 <= k < out@.len() implies views(out@)[k] == trimmed(split_commas(raw@)[k]) by {
            if k < out0.len() {
                assert(out@[k] == out0[k]);
            }
        }
    }
    out
}

} // verus!
