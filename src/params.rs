//! The path parameters of requests: each a piece of text that fills one
//! segment of a url.
use vstd::prelude::*;

verus! {

/// A alias, as it stands in a url.
#[derive(Debug, PartialEq, Clone)]
pub struct Alias(pub String);

/// `value` as a alias.
pub fn alias(value: &str) -> (r: Alias)
    ensures
        r.0@ == value@,
{
    Alias(value.to_owned())
}

/// A feature, as it stands in a url.
#[derive(Debug, PartialEq, Clone)]
pub struct Feature(pub String);

/// `value` as a feature.
pub fn feature(value: &str) -> (r: Feature)
    ensures
        r.0@ == value@,
{
    Feature(value.to_owned())
}

/// A fields, as it stands in a url.
#[derive(Debug, PartialEq, Clone)]
pub struct Fields(pub String);

/// `value` as a fields.
pub fn fields(value: &str) -> (r: Fields)
    ensures
        r.0@ == value@,
{
    Fields(value.to_owned())
}

/// A id, as it stands in a url.
#[derive(Debug, PartialEq, Clone)]
pub struct Id(pub String);

/// `value` as a id.
pub fn id(value: &str) -> (r: Id)
    ensures
        r.0@ == value@,
{
    Id(value.to_owned())
}

/// A index, as it stands in a url.
#[derive(Debug, PartialEq, Clone)]
pub struct Index(pub String);

/// `value` as a index.
pub fn index(value: &str) -> (r: Index)
    ensures
        r.0@ == value@,
{
    Index(value.to_owned())
}

/// A index metric, as it stands in a url.
#[derive(Debug, PartialEq, Clone)]
pub struct IndexMetric(pub String);

/// `value` as a index metric.
pub fn index_metric(value: &str) -> (r: IndexMetric)
    ensures
        r.0@ == value@,
{
    IndexMetric(value.to_owned())
}

/// A lang, as it stands in a url.
#[derive(Debug, PartialEq, Clone)]
pub struct Lang(pub String);

/// `value` as a lang.
pub fn lang(value: &str) -> (r: Lang)
    ensures
        r.0@ == value@,
{
    Lang(value.to_owned())
}

/// A metric, as it stands in a url.
#[derive(Debug, PartialEq, Clone)]
pub struct Metric(pub String);

/// `value` as a metric.
pub fn metric(value: &str) -> (r: Metric)
    ensures
        r.0@ == value@,
{
    Metric(value.to_owned())
}

/// A name, as it stands in a url.
#[derive(Debug, PartialEq, Clone)]
pub struct Name(pub String);

/// `value` as a name.
pub fn name(value: &str) -> (r: Name)
    ensures
        r.0@ == value@,
{
    Name(value.to_owned())
}

/// A new index, as it stands in a url.
#[derive(Debug, PartialEq, Clone)]
pub struct NewIndex(pub String);

/// `value` as a new index.
pub fn new_index(value: &str) -> (r: NewIndex)
    ensures
        r.0@ == value@,
{
    NewIndex(value.to_owned())
}

/// A node id, as it stands in a url.
#[derive(Debug, PartialEq, Clone)]
pub struct NodeId(pub String);

/// `value` as a node id.
pub fn node_id(value: &str) -> (r: NodeId)
    ensures
        r.0@ == value@,
{
    NodeId(value.to_owned())
}

/// A repository, as it stands in a url.
#[derive(Debug, PartialEq, Clone)]
pub struct Repository(pub String);

/// `value` as a repository.
pub fn repository(value: &str) -> (r: Repository)
    ensures
        r.0@ == value@,
{
    Repository(value.to_owned())
}

/// A scroll id, as it stands in a url.
#[derive(Debug, PartialEq, Clone)]
pub struct ScrollId(pub String);

/// `value` as a scroll id.
pub fn scroll_id(value: &str) -> (r: ScrollId)
    ensures
        r.0@ == value@,
{
    ScrollId(value.to_owned())
}

/// A snapshot, as it stands in a url.
#[derive(Debug, PartialEq, Clone)]
pub struct Snapshot(pub String);

/// `value` as a snapshot.
pub fn snapshot(value: &str) -> (r: Snapshot)
    ensures
        r.0@ == value@,
{
    Snapshot(value.to_owned())
}

/// A target, as it stands in a url.
#[derive(Debug, PartialEq, Clone)]
pub struct Target(pub String);

/// `value` as a target.
pub fn target(value: &str) -> (r: Target)
    ensures
        r.0@ == value@,
{
    Target(value.to_owned())
}

/// A task id, as it stands in a url.
#[derive(Debug, PartialEq, Clone)]
pub struct TaskId(pub String);

/// `value` as a task id.
pub fn task_id(value: &str) -> (r: TaskId)
    ensures
        r.0@ == value@,
{
    TaskId(value.to_owned())
}

/// A thread pool patterns, as it stands in a url.
#[derive(Debug, PartialEq, Clone)]
pub struct ThreadPoolPatterns(pub String);

/// `value` as a thread pool patterns.
pub fn thread_pool_patterns(value: &str) -> (r: ThreadPoolPatterns)
    ensures
        r.0@ == value@,
{
    ThreadPoolPatterns(value.to_owned())
}

/// A document type, as it stands in a url.
#[derive(Debug, PartialEq, Clone)]
pub struct Type(pub String);

/// `value` as a document type.
pub fn ty(value: &str) -> (r: Type)
    ensures
        r.0@ == value@,
{
    Type(value.to_owned())
}

} // verus!
