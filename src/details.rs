//! Structured details of errors reported by the cluster.
use vstd::prelude::*;

use crate::consistency::{consistency_code, Consistency, CONSISTENCY_LOCAL_ONE};
use crate::kind::{code_of, DriverErrorKind, CASS_OK};
use crate::write_type::{write_type_code, WriteType, WRITE_TYPE_CDC, WRITE_TYPE_UNKNOWN};

verus! {

/// The fields of the driver's error result object, as its accessors report
/// them.
///
/// Counts are signed because the driver reports a negative number when the
/// error carries no such count. Each string is `None` when the driver's
/// accessor failed for it.
#[derive(Debug, Clone)]
pub struct ErrorResultRecord {
    /// The error code of the result.
    pub code: u32,
    /// The native code of the consistency level of the failed request.
    pub consistency: u32,
    /// The number of replicas that answered.
    pub responses_received: i32,
    /// The number of replicas that had to answer.
    pub responses_required: i32,
    /// The number of replicas that failed.
    pub num_failures: i32,
    /// Whether the replica asked for data answered.
    pub data_present: bool,
    /// The native code of the write type.
    pub write_type: u32,
    /// The keyspace the error concerns.
    pub keyspace: Option<String>,
    /// The table the error concerns.
    pub table: Option<String>,
    /// The name of the function that failed.
    pub function: Option<String>,
    /// The argument types of the function that failed.
    pub arg_types: Vec<Option<String>>,
}

/// The details of an error that the cluster reported.
///
/// Which details are meaningful depends on the kind of the error: a read
/// timeout carries the consistency level and the answers received and
/// required, a function failure the function's name and argument types, and
/// so on.
#[derive(Debug, Clone)]
pub struct DriverErrorDetails {
    /// The kind of the error, never the success code.
    pub kind: DriverErrorKind,
    /// What the driver's error result object reported.
    pub record: ErrorResultRecord,
}

/// The name and argument types of a function that failed on the server.
#[derive(Debug, Clone)]
pub struct FunctionErrorDetails {
    /// The name of the function.
    pub name: String,
    /// The types of the function's arguments.
    pub arg_types: Vec<String>,
}

/// A count the driver reports, `None` when it reports none.
pub open spec fn count_of(n: i32) -> Option<usize> {
    if n < 0 { None } else { Some(n as usize) }
}

/// The placeholder for an argument type the driver could not report.
pub open spec fn unknown_arg_type() -> Seq<char> {
    "<unknown>"@
}

/// `parts` joined with `sep` between each two of them.
pub open spec fn join(parts: Seq<Seq<char>>, sep: Seq<char>) -> Seq<char>
    decreases parts.len(),
{
    if parts.len() == 0 {
        Seq::empty()
    } else if parts.len() == 1 {
        parts[0]
    } else {
        join(parts.drop_last(), sep) + sep + parts.last()
    }
}

/// The text of a failed function: its name, then its argument types in
/// parentheses, separated by a comma and a space.
pub open spec fn function_text(name: Seq<char>, arg_types: Seq<Seq<char>>) -> Seq<char> {
    name + "("@ + join(arg_types, ", "@) + ")"@
}

fn count(n: i32) -> (r: Option<usize>)
    ensures
        r == count_of(n),
{
    if n < 0 {
        None
    } else {
        Some(n as usize)
    }
}

impl DriverErrorDetails {
    /// Wraps what the driver's error result object reported.
    ///
    /// Returns `None` when the result carries the success code: there is no
    /// error to detail.
    pub fn from_driver(record: ErrorResultRecord) -> (r: Option<DriverErrorDetails>)
        ensures
            r is None <==> record.code == CASS_OK,
            r matches Some(d) ==> d.record == record && code_of(d.kind) == record.code,
    {
        match DriverErrorKind::from_driver(record.code) {
            None => None,
            Some(kind) => Some(DriverErrorDetails { kind, record }),
        }
    }

    /// The kind of the error.
    pub fn code(&self) -> (r: DriverErrorKind)
        ensures
            r == self.kind,
    {
        self.kind
    }

    /// The consistency level of the failed request, if the error has one.
    pub fn consistency(&self) -> (r: Option<Consistency>)
        ensures
            r is None <==> self.record.consistency > CONSISTENCY_LOCAL_ONE,
            r matches Some(c) ==> consistency_code(c) == self.record.consistency,
    {
        Consistency::from_driver(self.record.consistency)
    }

    /// The number of replicas that answered the request.
    pub fn responses_received(&self) -> (r: Option<usize>)
        ensures
            r == count_of(self.record.responses_received),
    {
        count(self.record.responses_received)
    }

    /// The number of replicas that had to answer the request.
    pub fn responses_required(&self) -> (r: Option<usize>)
        ensures
            r == count_of(self.record.responses_required),
    {
        count(self.record.responses_required)
    }

    /// The number of replicas that failed the request.
    pub fn failures_count(&self) -> (r: Option<usize>)
        ensures
            r == count_of(self.record.num_failures),
    {
        count(self.record.num_failures)
    }

    /// Whether the replica asked for data answered; only read timeouts and
    /// read failures carry it.
    pub fn is_data_present(&self) -> (r: Option<bool>)
        ensures
            r == (if self.kind == DriverErrorKind::ServerReadTimeout
                || self.kind == DriverErrorKind::ServerReadFailure {
                Some(self.record.data_present)
            } else {
                None
            }),
    {
        match self.kind {
            DriverErrorKind::ServerReadTimeout | DriverErrorKind::ServerReadFailure => Some(
                self.record.data_present,
            ),
            _ => None,
        }
    }

    /// The type of the write that failed, if the error has one.
    pub fn write_type(&self) -> (r: Option<WriteType>)
        ensures
            r is None <==> self.record.write_type == WRITE_TYPE_UNKNOWN,
            r matches Some(w) ==> write_type_code(w) == self.record.write_type,
            r matches Some(WriteType::Other(_)) <==> self.record.write_type > WRITE_TYPE_CDC,
    {
        WriteType::from_driver(self.record.write_type)
    }

    /// The keyspace the error concerns.
    pub fn keyspace(&self) -> (r: Option<String>)
        ensures
            r == self.record.keyspace,
    {
        self.record.keyspace.clone()
    }

    /// The table the error concerns.
    pub fn table(&self) -> (r: Option<String>)
        ensures
            r == self.record.table,
    {
        self.record.table.clone()
    }

    /// The function that failed, with its argument types; a type the driver
    /// could not report reads `<unknown>`.
    pub fn function(&self) -> (r: Option<FunctionErrorDetails>)
        ensures
            r is None <==> self.record.function is None,
            r matches Some(f) ==> {
                &&& Some(f.name) == self.record.function
                &&& f.arg_types.len() == self.record.arg_types.len()
                &&& forall|i: int|
                    0 <= i < f.arg_types.len() ==> #[trigger] f.arg_types[i]@ == match self.record.arg_types[i] {
                        Some(t) => t@,
                        None => unknown_arg_type(),
                    }
            },
    {
        match &self.record.function {
            None => None,
            Some(name) => Some(FunctionErrorDetails::new(name.clone(), self.arg_types())),
        }
    }

    fn arg_types(&self) -> (r: Vec<String>)
        ensures
            r.len() == self.record.arg_types.len(),
            forall|i: int|
                0 <= i < r.len() ==> #[trigger] r[i]@ == match self.record.arg_types[i] {
                    Some(t) => t@,
                    None => unknown_arg_type(),
                },
    {
        let mut out: Vec<String> = Vec::new();
        let mut i: usize = 0;
        while i < self.record.arg_types.len()
            invariant
                i <= self.record.arg_types.len(),
                out.len() == i,
                forall|j: int|
                    0 <= j < i ==> #[trigger] out[j]@ == match self.record.arg_types[j] {
                        Some(t) => t@,
                        None => unknown_arg_type(),
                    },
            decreases self.record.arg_types.len() - i,
        {
            let t = match &self.record.arg_types[i] {
                Some(t) => t.clone(),
                None => "<unknown>".to_owned(),
            };
            out.push(t);
            i = i + 1;
        }
        out
    }

    /// The message of the error's kind.
    pub fn message(&self) -> (r: String)
        ensures
            r@ == crate::kind::kind_message(self.kind),
    {
        self.kind.message()
    }
}

impl FunctionErrorDetails {
    /// Details of the function `name` with the given argument types.
    pub fn new(name: String, arg_types: Vec<String>) -> (r: FunctionErrorDetails)
        ensures
            r.name == name,
            r.arg_types == arg_types,
    {
        FunctionErrorDetails { name, arg_types }
    }

    /// The function as text: `name(type, type)`.
    pub fn text(&self) -> (r: String)
        ensures
            r@ == function_text(self.name@, self.arg_types@.map_values(|t: String| t@)),
    {
        let ghost views = self.arg_types@.map_values(|t: String| t@);
        let mut joined = String::new();
        let mut i: usize = 0;
        while i < self.arg_types.len()
            invariant
                i <= self.arg_types.len(),
                views == self.arg_types@.map_values(|t: String| t@),
                joined@ == join(views.subrange(0, i as int), ", "@),
            decreases self.arg_types.len() - i,
        {
            proof {
                assert(views.subrange(0, i as int + 1).drop_last() =~= views.subrange(0, i as int));
            }
            if i > 0 {
                joined.append(", ");
            } else {
                proof {
                    assert(views.subrange(0, 1) =~= seq![views[0]]);
                }
            }
            joined.append(self.arg_types[i].as_str());
            i = i + 1;
        }
        proof {
            assert(views.subrange(0, i as int) =~= views);
        }
        let mut s = self.name.clone();
        s.append("(");
        s.append(joined.as_str());
        s.append(")");
        s
    }
}

} // verus!
