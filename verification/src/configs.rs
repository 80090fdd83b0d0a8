//! The configuration of the storage.

use vstd::prelude::*;

verus! {

/// The storage on the local disk.
#[derive(Debug, PartialEq, Eq)]
pub struct DiskStorageConfig {
    pub data_path: String,
}

/// The storage in an S3 bucket.
#[derive(Debug, PartialEq, Eq)]
pub struct S3StorageConfig {
    pub region: String,
    pub endpoint_url: String,
    pub access_key_id: String,
    pub secret_access_key: String,
    pub bucket: String,
}

/// The storage in an Azure blob container.
#[derive(Debug, PartialEq, Eq)]
pub struct AzureStorageBlobConfig {
    pub account: String,
    pub master_key: String,
    pub container: String,
}

/// Which storage is used, and the parameters of each.
#[derive(Debug, PartialEq, Eq)]
pub struct StorageConfig {
    /// The name of the scheme: `s3`, `azblob` or `disk`.
    pub storage_type: String,
    pub disk: DiskStorageConfig,
    pub s3: S3StorageConfig,
    pub azure_storage_blob: AzureStorageBlobConfig,
}

/// The configuration of the query node.
#[derive(Debug, PartialEq, Eq)]
pub struct Config {
    pub storage: StorageConfig,
}

/// The mathematical content of a `Config`: the text of each setting.
pub struct ConfigSpec {
    pub storage_type: Seq<char>,
    pub disk_data_path: Seq<char>,
    pub s3_region: Seq<char>,
    pub s3_endpoint_url: Seq<char>,
    pub s3_access_key_id: Seq<char>,
    pub s3_secret_access_key: Seq<char>,
    pub s3_bucket: Seq<char>,
    pub azure_account: Seq<char>,
    pub azure_master_key: Seq<char>,
    pub azure_container: Seq<char>,
}

impl View for Config {
    type V = ConfigSpec;

    open spec fn view(&self) -> ConfigSpec {
        ConfigSpec {
            storage_type: self.storage.storage_type@,
            disk_data_path: self.storage.disk.data_path@,
            s3_region: self.storage.s3.region@,
            s3_endpoint_url: self.storage.s3.endpoint_url@,
            s3_access_key_id: self.storage.s3.access_key_id@,
            s3_secret_access_key: self.storage.s3.secret_access_key@,
            s3_bucket: self.storage.s3.bucket@,
            azure_account: self.storage.azure_storage_blob.account@,
            azure_master_key: self.storage.azure_storage_blob.master_key@,
            azure_container: self.storage.azure_storage_blob.container@,
        }
    }
}

impl Clone for Config {
    fn clone(&self) -> (r: Self)
        ensures
            r@ == self@,
    {
        Config {
            storage: StorageConfig {
                storage_type: self.storage.storage_type.clone(),
                disk: DiskStorageConfig { data_path: self.storage.disk.data_path.clone() },
                s3: S3StorageConfig {
                    region: self.storage.s3.region.clone(),
                    endpoint_url: self.storage.s3.endpoint_url.clone(),
                    access_key_id: self.storage.s3.access_key_id.clone(),
                    secret_access_key: self.storage.s3.secret_access_key.clone(),
                    bucket: self.storage.s3.bucket.clone(),
                },
                azure_storage_blob: AzureStorageBlobConfig {
                    account: self.storage.azure_storage_blob.account.clone(),
                    master_key: self.storage.azure_storage_blob.master_key.clone(),
                    container: self.storage.azure_storage_blob.container.clone(),
                },
            },
        }
    }
}

/// The value of a setting that may be given in the environment of the
/// process and in the configuration file: that of the environment where it
/// is given there, else that of the file, else the built-in default.
pub fn effective<T>(env: Option<T>, file: Option<T>, default: T) -> (r: T)
    ensures
        r == match env {
            Some(v) => v,
            None => match file {
                Some(v) => v,
                None => default,
            },
        },
{
    match env {
        Some(v) => v,
        None => match file {
            Some(v) => v,
            None => default,
        },
    }
}

} // verus!
