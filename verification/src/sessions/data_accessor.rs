//! Which object store a query reads and writes.

use vstd::prelude::*;
use crate::configs::StorageConfig;
use crate::errors::ErrorCode;
use crate::errors::ErrorKind;
use crate::text::eq_ignore_case;
use crate::text::upper;

verus! {

/// The kinds of object store.
#[derive(Clone, Copy, Debug, PartialEq, Eq, Structural)]
pub enum StorageScheme {
    LocalFs,
    S3,
    AzureStorageBlob,
}

/// The scheme that a name stands for, whatever the case of its letters.
pub open spec fn scheme_of(name: Seq<char>) -> Option<StorageScheme> {
    if upper(name) == upper("s3"@) {
        Some(StorageScheme::S3)
    } else if upper(name) == upper("azblob"@) {
        Some(StorageScheme::AzureStorageBlob)
    } else if upper(name) == upper("disk"@) {
        Some(StorageScheme::LocalFs)
    } else {
        None
    }
}

/// The text of the failure to find a scheme of the given name.
pub open spec fn unknown_scheme_message(name: Seq<char>) -> Seq<char> {
    "Unknown storage scheme '"@ + name + "', expected one of s3, azblob, disk"@
}

impl StorageScheme {
    /// The scheme of the given name: `s3`, `azblob` or `disk`, in any case.
    /// Any other name is refused with `BadArguments`.
    pub fn from_str(name: &str) -> (r: Result<StorageScheme, ErrorCode>)
        ensures
            match scheme_of(name@) {
                Some(scheme) => r == Ok::<StorageScheme, ErrorCode>(scheme),
                None => r is Err && r->Err_0.kind == ErrorKind::BadArguments && r->Err_0.message@
                    == unknown_scheme_message(name@),
            },
    {
        if eq_ignore_case(name, "s3") {
            Ok(StorageScheme::S3)
        } else if eq_ignore_case(name, "azblob") {
            Ok(StorageScheme::AzureStorageBlob)
        } else if eq_ignore_case(name, "disk") {
            Ok(StorageScheme::LocalFs)
        } else {
            let mut message = String::from_str("Unknown storage scheme '");
            message.append(name);
            message.append("', expected one of s3, azblob, disk");
            Err(ErrorCode::create(ErrorKind::BadArguments, message))
        }
    }
}

/// The object store to open for a query, with its parameters. Whatever is
/// opened is wrapped so that every read and write is counted in the metrics
/// of the query.
#[derive(Debug, PartialEq, Eq)]
pub enum DataAccessorPlan {
    S3 {
        region: String,
        endpoint_url: String,
        bucket: String,
        access_key_id: String,
        secret_access_key: String,
    },
    AzureStorageBlob { account: String, container: String, master_key: String },
    LocalFs { data_path: String },
}

/// The plan is the one that the configuration asks for under `scheme`.
pub open spec fn plan_matches(
    plan: DataAccessorPlan,
    scheme: StorageScheme,
    conf: &StorageConfig,
) -> bool {
    match scheme {
        StorageScheme::S3 => plan is S3 && plan->region@ == conf.s3.region@ && plan->endpoint_url@
            == conf.s3.endpoint_url@ && plan->bucket@ == conf.s3.bucket@ && plan->access_key_id@
            == conf.s3.access_key_id@ && plan->secret_access_key@ == conf.s3.secret_access_key@,
        StorageScheme::AzureStorageBlob => plan is AzureStorageBlob && plan->account@
            == conf.azure_storage_blob.account@ && plan->container@
            == conf.azure_storage_blob.container@ && plan->master_key@
            == conf.azure_storage_blob.master_key@,
        StorageScheme::LocalFs => plan is LocalFs && plan->data_path@ == conf.disk.data_path@,
    }
}

/// The object store that the configuration asks for, with the parameters of
/// its kind. Refused with `BadArguments` where the configuration names no
/// known scheme.
pub fn plan_data_accessor(conf: &StorageConfig) -> (r: Result<DataAccessorPlan, ErrorCode>)
    ensures
        match scheme_of(conf.storage_type@) {
            Some(scheme) => r is Ok && plan_matches(r->Ok_0, scheme, conf),
            None => r is Err && r->Err_0.kind == ErrorKind::BadArguments && r->Err_0.message@
                == unknown_scheme_message(conf.storage_type@),
        },
{
    let scheme = match StorageScheme::from_str(conf.storage_type.as_str()) {
        Ok(scheme) => scheme,
        Err(e) => {
            return Err(e);
        },
    };
    let plan = match scheme {
        StorageScheme::S3 => DataAccessorPlan::S3 {
            region: conf.s3.region.clone(),
            endpoint_url: conf.s3.endpoint_url.clone(),
            bucket: conf.s3.bucket.clone(),
            access_key_id: conf.s3.access_key_id.clone(),
            secret_access_key: conf.s3.secret_access_key.clone(),
        },
        StorageScheme::AzureStorageBlob => DataAccessorPlan::AzureStorageBlob {
            account: conf.azure_storage_blob.account.clone(),
            container: conf.azure_storage_blob.container.clone(),
            master_key: conf.azure_storage_blob.master_key.clone(),
        },
        StorageScheme::LocalFs => DataAccessorPlan::LocalFs {
            data_path: conf.disk.data_path.clone(),
        },
    };
    Ok(plan)
}

/// What a query has read from and written to the object store. The
/// counters wrap around where they pass the greatest number that they can
/// hold.
#[derive(Clone, Copy, Debug, PartialEq, Eq, Structural)]
pub struct DalMetrics {
    /// The number of reads.
    pub read_count: usize,
    /// The bytes read.
    pub read_bytes: usize,
    /// The number of writes.
    pub write_count: usize,
    /// The bytes written.
    pub write_bytes: usize,
}

/// The record of the reads and writes of one query. Every access of the
/// query to the object store is put down here.
#[derive(Debug, PartialEq, Eq)]
pub struct DalContext {
    pub metrics: DalMetrics,
}

impl DalContext {
    /// A record without any access.
    pub fn new() -> (ctx: DalContext)
        ensures
            ctx.metrics == (DalMetrics {
                read_count: 0,
                read_bytes: 0,
                write_count: 0,
                write_bytes: 0,
            }),
    {
        DalContext {
            metrics: DalMetrics { read_count: 0, read_bytes: 0, write_count: 0, write_bytes: 0 },
        }
    }

    /// Puts down one read of `bytes` bytes.
    pub fn record_read(&mut self, bytes: usize)
        ensures
            final(self).metrics == (DalMetrics {
                read_count: old(self).metrics.read_count.wrapping_add(1),
                read_bytes: old(self).metrics.read_bytes.wrapping_add(bytes),
                write_count: old(self).metrics.write_count,
                write_bytes: old(self).metrics.write_bytes,
            }),
    {
        self.metrics.read_count = self.metrics.read_count.wrapping_add(1);
        self.metrics.read_bytes = self.metrics.read_bytes.wrapping_add(bytes);
    }

    /// Puts down one write of `bytes` bytes.
    pub fn record_write(&mut self, bytes: usize)
        ensures
            final(self).metrics == (DalMetrics {
                read_count: old(self).metrics.read_count,
                read_bytes: old(self).metrics.read_bytes,
                write_count: old(self).metrics.write_count.wrapping_add(1),
                write_bytes: old(self).metrics.write_bytes.wrapping_add(bytes),
            }),
    {
        self.metrics.write_count = self.metrics.write_count.wrapping_add(1);
        self.metrics.write_bytes = self.metrics.write_bytes.wrapping_add(bytes);
    }

    pub fn get_metrics(&self) -> (m: DalMetrics)
        ensures
            m == self.metrics,
    {
        self.metrics
    }
}

/// The kinds of access to the object store.
#[derive(Clone, Copy, Debug, PartialEq, Eq, Structural)]
pub enum AccessKind {
    Read,
    Write,
}

/// What follows a failed access.
#[derive(Clone, Copy, Debug, PartialEq, Eq, Structural)]
pub enum FailureStep {
    /// The access is tried once more.
    Retry,
    /// The failure goes to the caller.
    Surface,
}

/// The classes of failure of an access to the object store.
#[derive(Clone, Copy, Debug, PartialEq, Eq, Structural)]
pub enum FailureClass {
    /// The connection to the store was reset.
    ConnectionReset,
    /// The store answered with a fault of its own (a status from 500 on).
    ServerError,
    /// The object does not exist.
    NotFound,
    /// Any other failure.
    Other,
}

impl FailureClass {
    /// The failures that may pass by themselves: a reset connection and a
    /// fault of the store.
    pub open spec fn is_transient_spec(self) -> bool {
        self == FailureClass::ConnectionReset || self == FailureClass::ServerError
    }

    /// Whether the failure may pass by itself.
    pub fn is_transient(&self) -> (b: bool)
        ensures
            b == self.is_transient_spec(),
    {
        match self {
            FailureClass::ConnectionReset | FailureClass::ServerError => true,
            _ => false,
        }
    }

    /// The class of the answer of a store that speaks HTTP, by its status:
    /// a fault of the store from 500 to 599, a missing object for 404, and
    /// any other failure else.
    pub fn of_status(status: u16) -> (class: FailureClass)
        ensures
            class == if 500 <= status <= 599 {
                FailureClass::ServerError
            } else if status == 404 {
                FailureClass::NotFound
            } else {
                FailureClass::Other
            },
    {
        if 500 <= status && status <= 599 {
            FailureClass::ServerError
        } else if status == 404 {
            FailureClass::NotFound
        } else {
            FailureClass::Other
        }
    }

    /// The kind of error under which a failure of the class goes to the
    /// caller.
    pub fn error_kind(&self) -> (kind: ErrorKind)
        ensures
            kind == if *self == FailureClass::NotFound {
                ErrorKind::NotFound
            } else {
                ErrorKind::Internal
            },
    {
        match self {
            FailureClass::NotFound => ErrorKind::NotFound,
            _ => ErrorKind::Internal,
        }
    }
}

/// What follows the failure of an access, of which `retries` retries have
/// been made already. A read that fails in a way that may pass by itself
/// is tried once more, and the failure of that retry goes to the caller. A
/// write is never tried again, so that no block is written twice.
pub fn after_failure(kind: AccessKind, class: FailureClass, retries: usize) -> (step: FailureStep)
    ensures
        step == if kind == AccessKind::Read && class.is_transient_spec() && retries == 0 {
            FailureStep::Retry
        } else {
            FailureStep::Surface
        },
{
    match kind {
        AccessKind::Read => if class.is_transient() && retries == 0 {
            FailureStep::Retry
        } else {
            FailureStep::Surface
        },
        AccessKind::Write => FailureStep::Surface,
    }
}

} // verus!
