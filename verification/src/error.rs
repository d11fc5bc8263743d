//! The errors of the library and the line of text each one is shown as.
//!
//! Where an error was caused by another one (a failed system call, a
//! client's error), `source` holds that error's text.

use crate::text::{contains_text, lemma_contains_infix, opt_text, text};
use vstd::prelude::*;
use vstd::string::StringExecFns;

verus! {

#[derive(Debug, Clone, PartialEq, Eq)]
pub enum Error {
    /// An error of the coordination store's client, shown as it is.
    CommonMeta { source: String },
    EtcdOperation { endpoints: String, source: String },
    EtcdValueMismatch { endpoints: String, expect: String, actual: String },
    ConfigLoad { message: String },
    ConnectionFailed { message: String },
    PermissionDenied { message: String },
    PerformanceTestFailed { message: String },
    DatabaseOperation { message: String, source: String },
    ObjectStoreOperation { message: String },
    NetworkOperation { message: String },
    Timeout { message: String },
    InvalidConfig { message: String },
    FileSystem { message: String, source: String },
    // Address parsing errors
    InvalidAddress { address: String },
    MissingPort { address: String },
    InvalidPort { address: String, port_str: String, source: String },
    // Storage-specific errors
    S3Config { message: String },
    S3Operation { message: String, source: String },
    OssConfig { message: String },
    OssOperation { message: String },
    AzureBlobConfig { message: String },
    AzureBlobOperation { message: String },
    GcsConfig { message: String },
    GcsOperation { message: String },
    FileStorageConfig { message: String },
    FileStorageOperation { message: String, source: String },
    // Metasrv-specific errors
    PostgresConnection { message: String, source: String },
    PostgresQuery { message: String, source: String },
    MySqlConnection { message: String, source: String },
    MySqlQuery { message: String, source: String },
    // TCP connection errors
    TcpConnection { address: String, message: String, source: String },
    // JSON serialization errors
    JsonSerialization { message: String, source: String },
    // TOML parsing errors
    TomlParsing { message: String, source: String },
    // Performance test errors
    PerformanceTestSetup { message: String },
    PerformanceTestExecution { message: String },
    // Unsupported operations
    UnsupportedStorageType { storage_type: String },
    UnsupportedStoreType { store_type: String },
}

impl Error {
    /// The words that open the error's line, up to and including the colon
    /// and space. Empty for an error that is shown as its source.
    pub open spec fn heading(self) -> Seq<char> {
        match self {
            Error::CommonMeta { .. } => ""@,
            Error::EtcdOperation { .. } => "Cannot operate etcd, provided endpoints: "@,
            Error::EtcdValueMismatch { .. } => "Inconsistent etcd value from "@,
            Error::ConfigLoad { .. } => "Failed to load configuration: "@,
            Error::ConnectionFailed { .. } => "Connection failed: "@,
            Error::PermissionDenied { .. } => "Permission denied: "@,
            Error::PerformanceTestFailed { .. } => "Performance test failed: "@,
            Error::DatabaseOperation { .. } => "Database operation failed: "@,
            Error::ObjectStoreOperation { .. } => "Object storage operation failed: "@,
            Error::NetworkOperation { .. } => "Network operation failed: "@,
            Error::Timeout { .. } => "Timeout occurred: "@,
            Error::InvalidConfig { .. } => "Invalid configuration: "@,
            Error::FileSystem { .. } => "File system operation failed: "@,
            Error::InvalidAddress { .. } => "Invalid address format: "@,
            Error::MissingPort { .. } => "Address must contain port number: "@,
            Error::InvalidPort { .. } => "Invalid port number in address "@,
            Error::S3Config { .. } => "S3 configuration error: "@,
            Error::S3Operation { .. } => "S3 operation failed: "@,
            Error::OssConfig { .. } => "OSS configuration error: "@,
            Error::OssOperation { .. } => "OSS operation failed: "@,
            Error::AzureBlobConfig { .. } => "Azure Blob configuration error: "@,
            Error::AzureBlobOperation { .. } => "Azure Blob operation failed: "@,
            Error::GcsConfig { .. } => "Google Cloud Storage configuration error: "@,
            Error::GcsOperation { .. } => "Google Cloud Storage operation failed: "@,
            Error::FileStorageConfig { .. } => "File storage configuration error: "@,
            Error::FileStorageOperation { .. } => "File storage operation failed: "@,
            Error::PostgresConnection { .. } => "PostgreSQL connection failed: "@,
            Error::PostgresQuery { .. } => "PostgreSQL query failed: "@,
            Error::MySqlConnection { .. } => "MySQL connection failed: "@,
            Error::MySqlQuery { .. } => "MySQL query failed: "@,
            Error::TcpConnection { .. } => "TCP connection failed to "@,
            Error::JsonSerialization { .. } => "JSON serialization failed: "@,
            Error::TomlParsing { .. } => "TOML parsing failed: "@,
            Error::PerformanceTestSetup { .. } => "Performance test setup failed: "@,
            Error::PerformanceTestExecution { .. } => "Performance test execution failed: "@,
            Error::UnsupportedStorageType { .. } => "Unsupported storage type: "@,
            Error::UnsupportedStoreType { .. } => "Unsupported store type: "@,
        }
    }

    /// What follows the heading.
    pub open spec fn subject(self) -> Seq<char> {
        match self {
            Error::CommonMeta { source } => source@,
            Error::EtcdOperation { endpoints, .. } => endpoints@,
            Error::EtcdValueMismatch { endpoints, expect, actual } => endpoints@ + ", expect `"@
                + expect@ + "`, actual: `"@ + actual@ + "`"@,
            Error::InvalidAddress { address } => address@,
            Error::MissingPort { address } => address@,
            Error::InvalidPort { address, port_str, .. } => address@ + ": "@ + port_str@,
            Error::TcpConnection { address, message, .. } => address@ + ": "@ + message@,
            Error::UnsupportedStorageType { storage_type } => storage_type@,
            Error::UnsupportedStoreType { store_type } => store_type@,
            Error::ConfigLoad { message } => message@,
            Error::ConnectionFailed { message } => message@,
            Error::PermissionDenied { message } => message@,
            Error::PerformanceTestFailed { message } => message@,
            Error::DatabaseOperation { message, .. } => message@,
            Error::ObjectStoreOperation { message } => message@,
            Error::NetworkOperation { message } => message@,
            Error::Timeout { message } => message@,
            Error::InvalidConfig { message } => message@,
            Error::FileSystem { message, .. } => message@,
            Error::S3Config { message } => message@,
            Error::S3Operation { message, .. } => message@,
            Error::OssConfig { message } => message@,
            Error::OssOperation { message } => message@,
            Error::AzureBlobConfig { message } => message@,
            Error::AzureBlobOperation { message } => message@,
            Error::GcsConfig { message } => message@,
            Error::GcsOperation { message } => message@,
            Error::FileStorageConfig { message } => message@,
            Error::FileStorageOperation { message, .. } => message@,
            Error::PostgresConnection { message, .. } => message@,
            Error::PostgresQuery { message, .. } => message@,
            Error::MySqlConnection { message, .. } => message@,
            Error::MySqlQuery { message, .. } => message@,
            Error::JsonSerialization { message, .. } => message@,
            Error::TomlParsing { message, .. } => message@,
            Error::PerformanceTestSetup { message } => message@,
            Error::PerformanceTestExecution { message } => message@,
        }
    }

    /// The line of text the error is shown as.
    pub open spec fn display_text(self) -> Seq<char> {
        self.heading() + self.subject()
    }

    /// The text of the error that caused this one, where there is one.
    pub open spec fn source_text(self) -> Option<Seq<char>> {
        match self {
            Error::CommonMeta { source } => Some(source@),
            Error::EtcdOperation { source, .. } => Some(source@),
            Error::DatabaseOperation { source, .. } => Some(source@),
            Error::FileSystem { source, .. } => Some(source@),
            Error::InvalidPort { source, .. } => Some(source@),
            Error::S3Operation { source, .. } => Some(source@),
            Error::FileStorageOperation { source, .. } => Some(source@),
            Error::PostgresConnection { source, .. } => Some(source@),
            Error::PostgresQuery { source, .. } => Some(source@),
            Error::MySqlConnection { source, .. } => Some(source@),
            Error::MySqlQuery { source, .. } => Some(source@),
            Error::TcpConnection { source, .. } => Some(source@),
            Error::JsonSerialization { source, .. } => Some(source@),
            Error::TomlParsing { source, .. } => Some(source@),
            _ => None,
        }
    }

    fn heading_str(&self) -> (r: &'static str)
        ensures
            r@ == self.heading(),
    {
        match self {
            Error::CommonMeta { .. } => "",
            Error::EtcdOperation { .. } => "Cannot operate etcd, provided endpoints: ",
            Error::EtcdValueMismatch { .. } => "Inconsistent etcd value from ",
            Error::ConfigLoad { .. } => "Failed to load configuration: ",
            Error::ConnectionFailed { .. } => "Connection failed: ",
            Error::PermissionDenied { .. } => "Permission denied: ",
            Error::PerformanceTestFailed { .. } => "Performance test failed: ",
            Error::DatabaseOperation { .. } => "Database operation failed: ",
            Error::ObjectStoreOperation { .. } => "Object storage operation failed: ",
            Error::NetworkOperation { .. } => "Network operation failed: ",
            Error::Timeout { .. } => "Timeout occurred: ",
            Error::InvalidConfig { .. } => "Invalid configuration: ",
            Error::FileSystem { .. } => "File system operation failed: ",
            Error::InvalidAddress { .. } => "Invalid address format: ",
            Error::MissingPort { .. } => "Address must contain port number: ",
            Error::InvalidPort { .. } => "Invalid port number in address ",
            Error::S3Config { .. } => "S3 configuration error: ",
            Error::S3Operation { .. } => "S3 operation failed: ",
            Error::OssConfig { .. } => "OSS configuration error: ",
            Error::OssOperation { .. } => "OSS operation failed: ",
            Error::AzureBlobConfig { .. } => "Azure Blob configuration error: ",
            Error::AzureBlobOperation { .. } => "Azure Blob operation failed: ",
            Error::GcsConfig { .. } => "Google Cloud Storage configuration error: ",
            Error::GcsOperation { .. } => "Google Cloud Storage operation failed: ",
            Error::FileStorageConfig { .. } => "File storage configuration error: ",
            Error::FileStorageOperation { .. } => "File storage operation failed: ",
            Error::PostgresConnection { .. } => "PostgreSQL connection failed: ",
            Error::PostgresQuery { .. } => "PostgreSQL query failed: ",
            Error::MySqlConnection { .. } => "MySQL connection failed: ",
            Error::MySqlQuery { .. } => "MySQL query failed: ",
            Error::TcpConnection { .. } => "TCP connection failed to ",
            Error::JsonSerialization { .. } => "JSON serialization failed: ",
            Error::TomlParsing { .. } => "TOML parsing failed: ",
            Error::PerformanceTestSetup { .. } => "Performance test setup failed: ",
            Error::PerformanceTestExecution { .. } => "Performance test execution failed: ",
            Error::UnsupportedStorageType { .. } => "Unsupported storage type: ",
            Error::UnsupportedStoreType { .. } => "Unsupported store type: ",
        }
    }

    fn subject_string(&self) -> (r: String)
        ensures
            r@ == self.subject(),
    {
        match self {
            Error::CommonMeta { source } => source.clone(),
            Error::EtcdOperation { endpoints, .. } => endpoints.clone(),
            Error::EtcdValueMismatch { endpoints, expect, actual } => {
                let mut s = endpoints.clone();
                s.append(", expect `");
                s.append(expect.as_str());
                s.append("`, actual: `");
                s.append(actual.as_str());
                s.append("`");
                s
            },
            Error::InvalidAddress { address } => address.clone(),
            Error::MissingPort { address } => address.clone(),
            Error::InvalidPort { address, port_str, .. } => {
                let mut s = address.clone();
                s.append(": ");
                s.append(port_str.as_str());
                s
            },
            Error::TcpConnection { address, message, .. } => {
                let mut s = address.clone();
                s.append(": ");
                s.append(message.as_str());
                s
            },
            Error::UnsupportedStorageType { storage_type } => storage_type.clone(),
            Error::UnsupportedStoreType { store_type } => store_type.clone(),
            Error::ConfigLoad { message } => message.clone(),
            Error::ConnectionFailed { message } => message.clone(),
            Error::PermissionDenied { message } => message.clone(),
            Error::PerformanceTestFailed { message } => message.clone(),
            Error::DatabaseOperation { message, .. } => message.clone(),
            Error::ObjectStoreOperation { message } => message.clone(),
            Error::NetworkOperation { message } => message.clone(),
            Error::Timeout { message } => message.clone(),
            Error::InvalidConfig { message } => message.clone(),
            Error::FileSystem { message, .. } => message.clone(),
            Error::S3Config { message } => message.clone(),
            Error::S3Operation { message, .. } => message.clone(),
            Error::OssConfig { message } => message.clone(),
            Error::OssOperation { message } => message.clone(),
            Error::AzureBlobConfig { message } => message.clone(),
            Error::AzureBlobOperation { message } => message.clone(),
            Error::GcsConfig { message } => message.clone(),
            Error::GcsOperation { message } => message.clone(),
            Error::FileStorageConfig { message } => message.clone(),
            Error::FileStorageOperation { message, .. } => message.clone(),
            Error::PostgresConnection { message, .. } => message.clone(),
            Error::PostgresQuery { message, .. } => message.clone(),
            Error::MySqlConnection { message, .. } => message.clone(),
            Error::MySqlQuery { message, .. } => message.clone(),
            Error::JsonSerialization { message, .. } => message.clone(),
            Error::TomlParsing { message, .. } => message.clone(),
            Error::PerformanceTestSetup { message } => message.clone(),
            Error::PerformanceTestExecution { message } => message.clone(),
        }
    }

    /// The line of text the error is shown as.
    pub fn to_string(&self) -> (r: String)
        ensures
            r@ == self.display_text(),
    {
        let mut s = text(self.heading_str());
        s.append(self.subject_string().as_str());
        s
    }

    /// The text of the error that caused this one, where there is one.
    pub fn source(&self) -> (r: Option<String>)
        ensures
            opt_text(r) == self.source_text(),
    {
        match self {
            Error::CommonMeta { source } => Some(source.clone()),
            Error::EtcdOperation { source, .. } => Some(source.clone()),
            Error::DatabaseOperation { source, .. } => Some(source.clone()),
            Error::FileSystem { source, .. } => Some(source.clone()),
            Error::InvalidPort { source, .. } => Some(source.clone()),
            Error::S3Operation { source, .. } => Some(source.clone()),
            Error::FileStorageOperation { source, .. } => Some(source.clone()),
            Error::PostgresConnection { source, .. } => Some(source.clone()),
            Error::PostgresQuery { source, .. } => Some(source.clone()),
            Error::MySqlConnection { source, .. } => Some(source.clone()),
            Error::MySqlQuery { source, .. } => Some(source.clone()),
            Error::TcpConnection { source, .. } => Some(source.clone()),
            Error::JsonSerialization { source, .. } => Some(source.clone()),
            Error::TomlParsing { source, .. } => Some(source.clone()),
            _ => None,
        }
    }
}

/// The line of an error about an address names the address; the line of an
/// invalid port names the text that is no port as well.
pub proof fn lemma_address_errors_name_the_address(e: Error)
    ensures
        e matches Error::MissingPort { address } ==> contains_text(e.display_text(), address@),
        e matches Error::InvalidPort { address, port_str, .. } ==> contains_text(
            e.display_text(),
            address@,
        ) && contains_text(e.display_text(), port_str@),
{
    match e {
        Error::MissingPort { address } => {
            lemma_contains_infix(e.heading(), address@, Seq::empty());
            assert(e.heading() + address@ + Seq::<char>::empty() =~= e.display_text());
        },
        Error::InvalidPort { address, port_str, .. } => {
            lemma_contains_infix(e.heading(), address@, ": "@ + port_str@);
            assert(e.heading() + address@ + (": "@ + port_str@) =~= e.display_text());
            lemma_contains_infix(e.heading() + address@ + ": "@, port_str@, Seq::empty());
            assert(e.heading() + address@ + ": "@ + port_str@ + Seq::<char>::empty()
                =~= e.display_text());
        },
        _ => {},
    }
}

} // verus!
