use vstd::prelude::*;
use vstd::string::*;
use crate::timestamp::Timestamp;

verus! {

/// The database that holds the observatory's engineering data.
pub open spec fn database() -> Seq<char> {
    "efd"@
}

/// The columns and table of the watcher's alarm events.
pub open spec fn alarm_select() -> Seq<char> {
    "SELECT \"time\",\"name\",\"reason\",\"severity\" FROM \"efd\".\"autogen\".\"lsst.sal.Watcher.logevent_alarm\""@
}

/// The columns and table of the scheduler's block status events.
pub open spec fn block_status_select() -> Seq<char> {
    "SELECT \"id\", \"status\", \"hash\", \"salIndex\" FROM \"efd\".\"autogen\".\"lsst.sal.Scheduler.logevent_blockStatus\""@
}

/// `select` restricted to the rows strictly between two instants.
pub open spec fn range_query(select: Seq<char>, start: Seq<char>, end: Seq<char>) -> Seq<char> {
    select + " WHERE time > '"@ + start + "' AND time < '"@ + end + "'"@
}

/// The query endpoint of a time-series server.
pub open spec fn query_endpoint(host: Seq<char>, port: Seq<char>) -> Seq<char> {
    "https://"@ + host + ":"@ + port + "/influxdb/query"@
}

fn append_range(q: &mut String, date_start: &str, date_end: &str)
    ensures
        final(q)@ == range_query(old(q)@, date_start@, date_end@),
{
    q.append(" WHERE time > '");
    q.append(date_start);
    q.append("' AND time < '");
    q.append(date_end);
    q.append("'");
}

/// The query for the alarms raised strictly between two instants.
pub fn alarm_query(date_start: &Timestamp, date_end: &Timestamp) -> (r: String)
    requires
        date_start.wf(),
        date_end.wf(),
    ensures
        r@ == range_query(alarm_select(), date_start.text(), date_end.text()),
{
    let date_start = date_start.to_text();
    let date_end = date_end.to_text();
    let date_start = date_start.as_str();
    let date_end = date_end.as_str();
    let mut q = String::from_str(
        "SELECT \"time\",\"name\",\"reason\",\"severity\" FROM \"efd\".\"autogen\".\"lsst.sal.Watcher.logevent_alarm\"",
    );
    append_range(&mut q, date_start, date_end);
    q
}

/// The query for the block status changes strictly between two instants.
pub fn block_status_query(date_start: &Timestamp, date_end: &Timestamp) -> (r: String)
    requires
        date_start.wf(),
        date_end.wf(),
    ensures
        r@ == range_query(block_status_select(), date_start.text(), date_end.text()),
{
    let date_start = date_start.to_text();
    let date_end = date_end.to_text();
    let date_start = date_start.as_str();
    let date_end = date_end.as_str();
    let mut q = String::from_str(
        "SELECT \"id\", \"status\", \"hash\", \"salIndex\" FROM \"efd\".\"autogen\".\"lsst.sal.Scheduler.logevent_blockStatus\"",
    );
    append_range(&mut q, date_start, date_end);
    q
}

/// The query endpoint of the time-series server at `host` and `port`.
pub fn query_url(host: &str, port: &str) -> (r: String)
    ensures
        r@ == query_endpoint(host@, port@),
{
    let mut u = String::from_str("https://");
    u.append(host);
    u.append(":");
    u.append(port);
    u.append("/influxdb/query");
    u
}

/// The request parameters of a time-series query: the database and the query text.
pub fn query_params(query: &str) -> (r: Vec<(String, String)>)
    ensures
        r@.len() == 2,
        r@[0].0@ == "db"@,
        r@[0].1@ == database(),
        r@[1].0@ == "q"@,
        r@[1].1@ == query@,
{
    let mut params: Vec<(String, String)> = Vec::new();
    params.push((String::from_str("db"), String::from_str("efd")));
    params.push((String::from_str("q"), String::from_str(query)));
    params
}

} // verus!
