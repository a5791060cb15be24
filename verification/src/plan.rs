//! The table of monitoring queries.
//!
//! The table is fixed: it names the six areas of the monitor subtree that
//! are reported, in the order in which they are asked. A new area is added
//! here and nowhere else.

use vstd::prelude::*;
use crate::text::{lemma_texts_push, texts_of};

verus! {

/// How far below its base a search reaches.
#[derive(Debug, Clone, Copy, PartialEq, Eq, Structural)]
pub enum SearchScope {
    /// The base entry alone.
    Base,
    /// The base entry and everything below it.
    Subtree,
}

/// One monitoring query: where to search, for what, which attributes to ask
/// for, and whether its lines carry a label made from the attribute key.
#[derive(Debug, Clone, PartialEq, Eq)]
pub struct QueryDescriptor {
    pub base_dn: String,
    pub scope: SearchScope,
    pub filter: String,
    pub attributes: Vec<String>,
    pub label_mode: bool,
}

/// A query as contracts see it.
pub struct QueryView {
    pub base_dn: Seq<char>,
    pub scope: SearchScope,
    pub filter: Seq<char>,
    pub attributes: Seq<Seq<char>>,
    pub label_mode: bool,
}

impl View for QueryDescriptor {
    type V = QueryView;

    open spec fn view(&self) -> QueryView {
        QueryView {
            base_dn: self.base_dn@,
            scope: self.scope,
            filter: self.filter@,
            attributes: texts_of(self.attributes@),
            label_mode: self.label_mode,
        }
    }
}

/// The queries that `plan` stands for.
pub open spec fn query_views(plan: Seq<QueryDescriptor>) -> Seq<QueryView> {
    Seq::new(plan.len(), |i: int| plan[i]@)
}

/// A subtree query without labels.
pub open spec fn counter_query(base_dn: Seq<char>, filter: Seq<char>, attribute: Seq<char>) -> QueryView {
    QueryView {
        base_dn,
        scope: SearchScope::Subtree,
        filter,
        attributes: seq![attribute],
        label_mode: false,
    }
}

/// The table itself.
pub open spec fn monitor_plan() -> Seq<QueryView> {
    seq![
        counter_query("cn=statistics,cn=monitor"@, "objectclass=*"@, "monitorCounter"@),
        counter_query(
            "cn=connections,cn=monitor"@,
            "(|(cn=current)(cn=total)(cn=Max File Descriptors))"@,
            "monitorCounter"@,
        ),
        counter_query("cn=time,cn=monitor"@, "(cn=uptime)"@, "monitoredInfo"@),
        counter_query("cn=waiters,cn=monitor"@, "objectclass=*"@, "monitorCounter"@),
        counter_query(
            "cn=threads,cn=monitor"@,
            "(|(cn=max)(cn=Max Pending)(cn=Open)(cn=Starting)(cn=Active)(cn=Pending)(cn=Backload))"@,
            "monitoredInfo"@,
        ),
        (QueryView {
            base_dn: "cn=operations,cn=monitor"@,
            scope: SearchScope::Subtree,
            filter: "objectclass=*"@,
            attributes: seq!["monitorOpInitiated"@, "monitorOpCompleted"@],
            label_mode: true,
        }),
    ]
}

/// A subtree query for one attribute, without labels.
fn counter(base_dn: &str, filter: &str, attribute: &str) -> (query: QueryDescriptor)
    ensures
        query@ == counter_query(base_dn@, filter@, attribute@),
{
    let mut attributes: Vec<String> = Vec::new();
    let name = String::from_str(attribute);
    proof {
        lemma_texts_push(attributes@, name);
        assert(texts_of(attributes@) =~= Seq::<Seq<char>>::empty());
    }
    attributes.push(name);
    proof {
        assert(texts_of(attributes@) =~= seq![attribute@]);
    }
    QueryDescriptor {
        base_dn: String::from_str(base_dn),
        scope: SearchScope::Subtree,
        filter: String::from_str(filter),
        attributes,
        label_mode: false,
    }
}

/// The table of monitoring queries, in the order in which they are asked.
pub fn query_plan() -> (plan: Vec<QueryDescriptor>)
    ensures
        query_views(plan@) == monitor_plan(),
{
    let mut plan: Vec<QueryDescriptor> = Vec::new();
    plan.push(counter("cn=statistics,cn=monitor", "objectclass=*", "monitorCounter"));
    plan.push(
        counter(
            "cn=connections,cn=monitor",
            "(|(cn=current)(cn=total)(cn=Max File Descriptors))",
            "monitorCounter",
        ),
    );
    plan.push(counter("cn=time,cn=monitor", "(cn=uptime)", "monitoredInfo"));
    plan.push(counter("cn=waiters,cn=monitor", "objectclass=*", "monitorCounter"));
    plan.push(
        counter(
            "cn=threads,cn=monitor",
            "(|(cn=max)(cn=Max Pending)(cn=Open)(cn=Starting)(cn=Active)(cn=Pending)(cn=Backload))",
            "monitoredInfo",
        ),
    );
    let mut attributes: Vec<String> = Vec::new();
    attributes.push(String::from_str("monitorOpInitiated"));
    attributes.push(String::from_str("monitorOpCompleted"));
    proof {
        assert(texts_of(attributes@) =~= seq!["monitorOpInitiated"@, "monitorOpCompleted"@]);
    }
    plan.push(
        QueryDescriptor {
            base_dn: String::from_str("cn=operations,cn=monitor"),
            scope: SearchScope::Subtree,
            filter: String::from_str("objectclass=*"),
            attributes,
            label_mode: true,
        },
    );
    proof {
        assert(query_views(plan@) =~= monitor_plan());
    }
    plan
}

} // verus!
