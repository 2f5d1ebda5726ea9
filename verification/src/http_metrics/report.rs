//! Under which names metrics are reported.

use crate::time::Duration;
use vstd::prelude::*;
use vstd::string::StringExecFns;

verus! {

/// Reports the metrics in a registry `R`.
#[derive(Debug)]
pub struct Report<R> {
    pub prefix: String,
    pub registry: R,
    /// How long metrics with no updates are retained for reports.
    pub retain_idle: Duration,
    /// Whether latencies are reported.
    pub include_latencies: bool,
}

/// A name with a prefix.
pub open spec fn prefixed(prefix: Seq<char>, name: Seq<char>) -> Seq<char> {
    if prefix.len() == 0 {
        name
    } else {
        prefix + seq!['_'] + name
    }
}

impl<R> Report<R> {
    /// Reports metrics without a prefix, with latencies.
    pub fn new(retain_idle: Duration, registry: R) -> (report: Self)
        ensures
            report.prefix@ == Seq::<char>::empty(),
            report.registry == registry,
            report.retain_idle == retain_idle,
            report.include_latencies,
    {
        Report { prefix: String::new(), registry, retain_idle, include_latencies: true }
    }

    /// Puts `prefix` before all names. An empty prefix changes nothing.
    pub fn with_prefix(self, prefix: &str) -> (report: Self)
        ensures
            report.prefix@ == if prefix@.len() == 0 {
                self.prefix@
            } else {
                prefix@
            },
            report.registry == self.registry,
            report.retain_idle == self.retain_idle,
            report.include_latencies == self.include_latencies,
    {
        if vstd::string::StrSliceExecFns::unicode_len(prefix) == 0 {
            return self;
        }
        Report {
            prefix: prefix.to_owned(),
            registry: self.registry,
            retain_idle: self.retain_idle,
            include_latencies: self.include_latencies,
        }
    }

    /// Does not report latencies.
    pub fn without_latencies(self) -> (report: Self)
        ensures
            report == (Report { include_latencies: false, ..self }),
    {
        Report {
            prefix: self.prefix,
            registry: self.registry,
            retain_idle: self.retain_idle,
            include_latencies: false,
        }
    }

    /// The name that `name` is reported under.
    pub fn prefix_key(&self, name: &str) -> (key: String)
        ensures
            key@ == prefixed(self.prefix@, name@),
    {
        let prefix = self.prefix.as_str();
        if vstd::string::StrSliceExecFns::unicode_len(prefix) == 0 {
            return name.to_owned();
        }
        proof {
            reveal_strlit("_");
        }
        let mut key = self.prefix.clone();
        key.append("_");
        key.append(name);
        assert(key@ =~= self.prefix@ + seq!['_'] + name@);
        key
    }
}

/// A name is reported behind the prefix and an underscore, and as it is if there is no prefix.
pub proof fn law_names_are_prefixed<R>(report: Report<R>, name: &str, key: String)
    requires
        call_ensures(Report::<R>::prefix_key, (&report, name), key),
    ensures
        report.prefix@.len() == 0 ==> key@ == name@,
        report.prefix@.len() > 0 ==> {
            let n = report.prefix@.len() as int;
            &&& key@.len() == n + 1 + name@.len()
            &&& key@.take(n) == report.prefix@
            &&& key@[n] == '_'
            &&& key@.skip(n + 1) == name@
        },
{
    if report.prefix@.len() > 0 {
        let n = report.prefix@.len() as int;
        assert(key@.take(n) =~= report.prefix@);
        assert(key@.skip(n + 1) =~= name@);
    }
}

/// A report has no prefix and has latencies until it is told otherwise. The prefix that was
/// given last counts, but for an empty one. Nothing else changes.
pub proof fn law_reports_are_set<R>(
    retain_idle: Duration,
    registry: R,
    report: Report<R>,
    prefix: &str,
    named: Report<R>,
    plain: Report<R>,
)
    requires
        call_ensures(Report::<R>::new, (retain_idle, registry), report),
        call_ensures(Report::<R>::with_prefix, (report, prefix), named),
        call_ensures(Report::<R>::without_latencies, (named,), plain),
    ensures
        report.prefix@.len() == 0,
        report.include_latencies,
        named.prefix@ == prefix@,
        named.include_latencies,
        plain.prefix@ == prefix@,
        !plain.include_latencies,
        plain.registry == registry,
        plain.retain_idle == retain_idle,
{
    assert(report.prefix@ =~= Seq::empty());
    if prefix@.len() == 0 {
        assert(named.prefix@ =~= prefix@);
    }
}

/// An empty prefix leaves the one that is there.
pub proof fn law_empty_prefix_changes_nothing<R>(
    report: Report<R>,
    prefix: &str,
    named: Report<R>,
)
    requires
        call_ensures(Report::<R>::with_prefix, (report, prefix), named),
    ensures
        named.prefix@ == if prefix@.len() > 0 {
            prefix@
        } else {
            report.prefix@
        },
        named.registry == report.registry,
        named.retain_idle == report.retain_idle,
        named.include_latencies == report.include_latencies,
{
}

} // verus!
