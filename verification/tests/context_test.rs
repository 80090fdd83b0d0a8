use fuse_query::catalogs::table_info::TableIdent;
use fuse_query::catalogs::table_info::TableInfo;
use fuse_query::configs::AzureStorageBlobConfig;
use fuse_query::configs::effective;
use fuse_query::configs::Config;
use fuse_query::configs::DiskStorageConfig;
use fuse_query::configs::S3StorageConfig;
use fuse_query::configs::StorageConfig;
use fuse_query::datavalues::data_schema::DataField;
use fuse_query::datavalues::data_schema::DataSchema;
use fuse_query::datavalues::data_type::DataType;
use fuse_query::datavalues::data_value::DataValue;
use fuse_query::errors::ErrorKind;
use fuse_query::interpreters::interpreter_select::SelectInterpreter;
use fuse_query::interpreters::interpreter_select::SelectPlan;
use fuse_query::planners::Part;
use fuse_query::planners::ReadDataSourcePlan;
use fuse_query::planners::Statistics;
use fuse_query::sessions::context::QueryContext;
use fuse_query::sessions::context::TableRequest;
use fuse_query::sessions::context_shared::PollStep;
use fuse_query::sessions::context_shared::QueryContextShared;
use fuse_query::sessions::data_accessor::after_failure;
use fuse_query::sessions::data_accessor::plan_data_accessor;
use fuse_query::sessions::data_accessor::AccessKind;
use fuse_query::sessions::data_accessor::DalContext;
use fuse_query::sessions::data_accessor::DalMetrics;
use fuse_query::sessions::data_accessor::DataAccessorPlan;
use fuse_query::sessions::data_accessor::FailureClass;
use fuse_query::sessions::data_accessor::FailureStep;
use fuse_query::sessions::data_accessor::StorageScheme;
use fuse_query::sessions::progress::Progress;
use fuse_query::sessions::progress::ProgressValues;

fn config(storage_type: &str) -> Config {
    Config {
        storage: StorageConfig {
            storage_type: storage_type.to_string(),
            disk: DiskStorageConfig { data_path: "/var/data".to_string() },
            s3: S3StorageConfig {
                region: "eu-1".to_string(),
                endpoint_url: "https://s3.example".to_string(),
                access_key_id: "key".to_string(),
                secret_access_key: "secret".to_string(),
                bucket: "bucket".to_string(),
            },
            azure_storage_blob: AzureStorageBlobConfig {
                account: "account".to_string(),
                master_key: "master".to_string(),
                container: "container".to_string(),
            },
        },
    }
}

fn shared() -> QueryContextShared {
    QueryContextShared::try_create(config("disk"), "query-1", "default", "root")
}

fn part(n: u64) -> Part {
    Part { location: format!("_b/{}.parquet", n), row_start: 0, row_end: n, projection: vec![0] }
}

fn parts(range: std::ops::Range<u64>) -> Vec<Part> {
    range.map(part).collect()
}

#[test]
fn test_partitions_are_stolen_from_the_back() {
    let mut shared = shared();
    let mut ctx = QueryContext::from_shared(&mut shared, "abc");
    ctx.try_set_partitions(parts(0..5)).unwrap();
    assert_eq!(ctx.try_get_partitions(2).unwrap(), vec![part(4), part(3)]);
    assert_eq!(ctx.try_get_partitions(0).unwrap(), vec![]);
    assert_eq!(ctx.try_get_partitions(1).unwrap(), vec![part(2)]);
    // more are asked for than are left
    assert_eq!(ctx.try_get_partitions(10).unwrap(), vec![part(1), part(0)]);
    // an exhausted queue is not an error
    assert_eq!(ctx.try_get_partitions(3).unwrap(), vec![]);
    assert_eq!(ctx.try_get_partitions(usize::MAX).unwrap(), vec![]);
}

#[test]
fn test_partitions_are_queued_in_order() {
    let mut shared = shared();
    let mut ctx = QueryContext::from_shared(&mut shared, "abc");
    ctx.try_set_partitions(parts(0..2)).unwrap();
    ctx.try_set_partitions(vec![]).unwrap();
    ctx.try_set_partitions(parts(2..4)).unwrap();
    let queued: Vec<Part> = ctx.partition_queue.iter().cloned().collect();
    assert_eq!(queued, parts(0..4));
    assert_eq!(ctx.try_get_partitions(1).unwrap(), vec![part(3)]);
    ctx.try_set_partitions(parts(7..8)).unwrap();
    assert_eq!(ctx.try_get_partitions(2).unwrap(), vec![part(7), part(2)]);
}

#[test]
fn test_partitions_come_out_exactly_once() {
    for batch in [1usize, 2, 3, 7, 100] {
        let mut shared = shared();
        let mut ctx = QueryContext::from_shared(&mut shared, "abc");
        ctx.try_set_partitions(parts(0..23)).unwrap();
        let mut seen: Vec<Part> = vec![];
        loop {
            let got = ctx.try_get_partitions(batch).unwrap();
            assert!(got.len() <= batch);
            if got.is_empty() {
                break;
            }
            seen.extend(got);
        }
        seen.reverse();
        assert_eq!(seen, parts(0..23));
    }
}

#[test]
fn test_each_context_has_its_own_queue() {
    let mut shared = shared();
    let mut first = QueryContext::from_shared(&mut shared, "abc");
    let mut second = QueryContext::new(&first, &mut shared);
    first.try_set_partitions(parts(0..2)).unwrap();
    assert_eq!(second.try_get_partitions(5).unwrap(), vec![]);
    assert_eq!(first.try_get_partitions(5).unwrap().len(), 2);
    assert_eq!(second.get_fuse_version(), first.get_fuse_version());
}

#[test]
fn test_context_ref_count() {
    let mut shared = shared();
    assert_eq!(shared.ref_count, 0);
    let first = QueryContext::from_shared(&mut shared, "abc");
    assert_eq!(first.get_fuse_version(), "DatabendQuery v-abc");
    let second = QueryContext::new(&first, &mut shared);
    let third = QueryContext::new(&second, &mut shared);
    assert_eq!(shared.ref_count, 3);
    assert!(!second.destroy(&mut shared));
    assert!(!shared.destroyed);
    let fourth = QueryContext::new(&first, &mut shared);
    assert!(!first.destroy(&mut shared));
    assert!(!fourth.destroy(&mut shared));
    assert_eq!(shared.ref_count, 1);
    assert!(!shared.destroyed);
    // the last context releases what is shared
    assert!(third.destroy(&mut shared));
    assert!(shared.destroyed);
    assert_eq!(shared.ref_count, 0);
}

#[test]
fn test_shared_ref_count_steps() {
    let mut shared = shared();
    shared.increment_ref_count();
    shared.increment_ref_count();
    assert_eq!(shared.ref_count, 2);
    assert!(!shared.destroy_context_ref());
    assert!(shared.destroy_context_ref());
    assert_eq!(shared.ref_count, 0);
    // the count wraps as the counter of the contexts does
    shared.ref_count = usize::MAX;
    shared.increment_ref_count();
    assert_eq!(shared.ref_count, 0);
    assert!(!shared.destroy_context_ref());
    assert_eq!(shared.ref_count, usize::MAX);
}

#[test]
fn test_progress() {
    let mut shared = shared();
    let ctx = QueryContext::from_shared(&mut shared, "abc");
    let zero = ProgressValues { read_rows: 0, read_bytes: 0, total_rows_to_read: 0 };
    assert_eq!(ctx.get_progress_value(&shared), zero);
    ctx.progress_callback(&mut shared, &ProgressValues { read_rows: 3, read_bytes: 30, total_rows_to_read: 99 });
    ctx.progress_callback(&mut shared, &ProgressValues { read_rows: 4, read_bytes: 5, total_rows_to_read: 0 });
    ctx.add_total_rows_approx(&mut shared, 100);
    ctx.add_total_rows_approx(&mut shared, 11);
    let values = ProgressValues { read_rows: 7, read_bytes: 35, total_rows_to_read: 111 };
    assert_eq!(ctx.get_progress_value(&shared), values);
    assert_eq!(ctx.get_and_reset_progress_value(&mut shared), values);
    assert_eq!(ctx.get_progress_value(&shared), zero);
    let mut progress = Progress::create();
    progress.incr(&ProgressValues { read_rows: usize::MAX, read_bytes: 1, total_rows_to_read: 0 });
    progress.incr(&ProgressValues { read_rows: 2, read_bytes: 1, total_rows_to_read: 0 });
    assert_eq!(progress.get_values(), ProgressValues { read_rows: 1, read_bytes: 2, total_rows_to_read: 0 });
    progress.reset();
    assert_eq!(progress.get_values(), zero);
}

#[test]
fn test_statistics() {
    let mut shared = shared();
    let mut ctx = QueryContext::from_shared(&mut shared, "abc");
    assert_eq!(ctx.try_get_statistics().unwrap(), Statistics::default());
    assert_eq!(Statistics::default(), Statistics { read_rows: 0, read_bytes: 0, is_exact: false });
    let stats = Statistics::new_exact(10, 1000);
    assert!(stats.is_exact);
    ctx.try_set_statistics(&stats).unwrap();
    assert_eq!(ctx.try_get_statistics().unwrap(), stats);
}

#[test]
fn test_subquery_names() {
    let mut shared = shared();
    let ctx = QueryContext::from_shared(&mut shared, "abc");
    assert_eq!(ctx.get_subquery_name(&mut shared), "_subquery_0");
    assert_eq!(ctx.get_subquery_name(&mut shared), "_subquery_1");
    assert_eq!(shared.get_subquery_name(), "_subquery_2");
    shared.subquery_index = 1234567;
    assert_eq!(shared.get_subquery_name(), "_subquery_1234567");
    shared.subquery_index = usize::MAX;
    assert_eq!(shared.get_subquery_name(), format!("_subquery_{}", usize::MAX));
    assert_eq!(shared.get_subquery_name(), "_subquery_0");
}

#[test]
fn test_current_database() {
    let mut shared = shared();
    let ctx = QueryContext::from_shared(&mut shared, "abc");
    assert_eq!(ctx.get_current_database(&shared), "default");
    assert_eq!(ctx.get_current_user(&shared).unwrap(), "root");
    assert_eq!(ctx.get_id(&shared), "query-1");
    ctx.set_current_database(&mut shared, "db1".to_string(), true).unwrap();
    assert_eq!(ctx.get_current_database(&shared), "db1");
    let err = ctx.set_current_database(&mut shared, "xx".to_string(), false).unwrap_err();
    assert_eq!(err.kind, ErrorKind::UnknownDatabase);
    assert_eq!(err.message, "Cannot USE 'xx', because the 'xx' doesn't exist");
    assert_eq!(ctx.get_current_database(&shared), "db1");
    ctx.attach_query_str(&mut shared, "select 1");
    assert_eq!(shared.query_str, "select 1");
    assert_eq!(shared.get_config().storage.storage_type, "disk");
}

#[test]
fn test_storage_scheme_names() {
    assert_eq!(StorageScheme::from_str("s3").unwrap(), StorageScheme::S3);
    assert_eq!(StorageScheme::from_str("S3").unwrap(), StorageScheme::S3);
    assert_eq!(StorageScheme::from_str("azblob").unwrap(), StorageScheme::AzureStorageBlob);
    assert_eq!(StorageScheme::from_str("AzBlob").unwrap(), StorageScheme::AzureStorageBlob);
    assert_eq!(StorageScheme::from_str("disk").unwrap(), StorageScheme::LocalFs);
    assert_eq!(StorageScheme::from_str("DISK").unwrap(), StorageScheme::LocalFs);
    for name in ["", "s33", "disks", " disk", "hdfs"] {
        let err = StorageScheme::from_str(name).unwrap_err();
        assert_eq!(err.kind, ErrorKind::BadArguments);
        assert_eq!(
            err.message,
            format!("Unknown storage scheme '{}', expected one of s3, azblob, disk", name)
        );
    }
}

#[test]
fn test_data_accessor_plan() {
    assert_eq!(plan_data_accessor(&config("disk").storage).unwrap(), DataAccessorPlan::LocalFs {
        data_path: "/var/data".to_string()
    });
    assert_eq!(plan_data_accessor(&config("S3").storage).unwrap(), DataAccessorPlan::S3 {
        region: "eu-1".to_string(),
        endpoint_url: "https://s3.example".to_string(),
        bucket: "bucket".to_string(),
        access_key_id: "key".to_string(),
        secret_access_key: "secret".to_string(),
    });
    assert_eq!(
        plan_data_accessor(&config("azblob").storage).unwrap(),
        DataAccessorPlan::AzureStorageBlob {
            account: "account".to_string(),
            container: "container".to_string(),
            master_key: "master".to_string(),
        }
    );
    assert_eq!(plan_data_accessor(&config("ftp").storage).unwrap_err().kind, ErrorKind::BadArguments);
    let mut shared = QueryContextShared::try_create(config("azblob"), "q", "default", "");
    let ctx = QueryContext::from_shared(&mut shared, "abc");
    assert!(matches!(ctx.get_data_accessor(&shared).unwrap(), DataAccessorPlan::AzureStorageBlob { .. }));
}

#[test]
fn test_dal_metrics() {
    let mut dal = DalContext::new();
    dal.record_read(10);
    dal.record_write(7);
    dal.record_read(1);
    assert_eq!(dal.get_metrics(), DalMetrics { read_count: 2, read_bytes: 11, write_count: 1, write_bytes: 7 });
    let mut shared = shared();
    let ctx = QueryContext::from_shared(&mut shared, "abc");
    shared.dal_ctx.record_write(3);
    assert_eq!(ctx.get_dal_metrics(&shared), DalMetrics { read_count: 0, read_bytes: 0, write_count: 1, write_bytes: 3 });
}

#[test]
fn test_retry_policy() {
    let all = [FailureClass::ConnectionReset, FailureClass::ServerError, FailureClass::NotFound, FailureClass::Other];
    for class in all {
        let transient = matches!(class, FailureClass::ConnectionReset | FailureClass::ServerError);
        assert_eq!(class.is_transient(), transient);
        // a read is tried once more where the failure may pass, a write never
        let first = if transient { FailureStep::Retry } else { FailureStep::Surface };
        assert_eq!(after_failure(AccessKind::Read, class, 0), first);
        assert_eq!(after_failure(AccessKind::Read, class, 1), FailureStep::Surface);
        assert_eq!(after_failure(AccessKind::Read, class, 5), FailureStep::Surface);
        assert_eq!(after_failure(AccessKind::Write, class, 0), FailureStep::Surface);
        assert_eq!(after_failure(AccessKind::Write, class, 1), FailureStep::Surface);
    }
}

#[test]
fn test_failure_classes() {
    assert_eq!(FailureClass::of_status(500), FailureClass::ServerError);
    assert_eq!(FailureClass::of_status(503), FailureClass::ServerError);
    assert_eq!(FailureClass::of_status(599), FailureClass::ServerError);
    assert_eq!(FailureClass::of_status(600), FailureClass::Other);
    assert_eq!(FailureClass::of_status(499), FailureClass::Other);
    assert_eq!(FailureClass::of_status(404), FailureClass::NotFound);
    assert_eq!(FailureClass::of_status(403), FailureClass::Other);
    assert_eq!(FailureClass::NotFound.error_kind(), ErrorKind::NotFound);
    assert_eq!(FailureClass::ServerError.error_kind(), ErrorKind::Internal);
    assert_eq!(FailureClass::ConnectionReset.error_kind(), ErrorKind::Internal);
    assert_eq!(FailureClass::Other.error_kind(), ErrorKind::Internal);
}

fn table(id: u64, version: u64) -> TableInfo {
    TableInfo::simple(
        "db1",
        "t",
        TableIdent::new(id, version),
        DataSchema::new(vec![DataField::new("c1", DataType::Int32, false)]),
        "Fuse",
    )
}

#[test]
fn test_table_resolution_is_stable_within_a_query() {
    let mut shared = shared();
    assert!(shared.cached_table("db1", "t").is_none());
    let first = shared.cache_table("db1", "t", table(1, 1));
    assert_eq!(first.ident, TableIdent::new(1, 1));
    // the catalog has moved on: the query keeps what it resolved first
    let again = shared.cache_table("db1", "t", table(1, 2));
    assert_eq!(again, first);
    assert_eq!(shared.cached_table("db1", "t"), Some(&first));
    assert_eq!(shared.cached_table("db1", "T"), None);
    assert_eq!(shared.cached_table("db2", "t"), None);
    let other = shared.cache_table("db2", "t", table(9, 0));
    assert_eq!(other.ident.table_id, 9);
    assert_eq!(shared.cached_table("db1", "t"), Some(&first));
    assert_eq!(shared.tables_refs.len(), 2);
}

#[test]
fn test_build_table_from_source_plan() {
    let mut shared = shared();
    let ctx = QueryContext::from_shared(&mut shared, "abc");
    let mut plan = ReadDataSourcePlan {
        table_info: table(1, 0),
        parts: vec![],
        statistics: Statistics::default(),
        description: String::new(),
        tbl_args: None,
    };
    match ctx.build_table_from_source_plan(&plan) {
        TableRequest::Table(info) => assert_eq!(info, &plan.table_info),
        other => panic!("{:?}", other),
    }
    plan.tbl_args = Some(vec![DataValue::UInt64(Some(10))]);
    match ctx.build_table_from_source_plan(&plan) {
        TableRequest::TableFunction(name, args) => {
            assert_eq!(name, "t");
            assert_eq!(args, &vec![DataValue::UInt64(Some(10))]);
        }
        other => panic!("{:?}", other),
    }
    plan.tbl_args = Some(vec![]);
    assert!(matches!(ctx.build_table_from_source_plan(&plan), TableRequest::TableFunction(_, _)));
}

#[test]
fn test_query_abort() {
    let mut shared = shared();
    let mut ctx = QueryContext::from_shared(&mut shared, "abc");
    let select = SelectInterpreter::try_create(SelectPlan {
        schema: DataSchema::new(vec![DataField::new("c1", DataType::Int32, false)]),
    })
    .unwrap();
    assert_eq!(select.name(), "SelectInterpreter");
    assert_eq!(select.schema().num_fields(), 1);
    ctx.try_create_abortable(&mut shared).unwrap();
    assert_eq!(shared.abort_handles, 1);
    ctx.try_set_partitions(parts(0..10)).unwrap();

    // the source steals work as long as the query runs
    assert_eq!(select.poll_step(&shared), Ok(PollStep::Forward));
    assert_eq!(ctx.try_get_partitions(3).unwrap().len(), 3);
    assert!(!shared.is_aborted());

    shared.kill();
    // the next poll ends the stream with the error of its own kind
    let err = select.poll_step(&shared).unwrap_err();
    assert_eq!(err.kind, ErrorKind::Aborted);
    assert!(err.is_aborted());
    assert_eq!(shared.poll_step().unwrap_err().kind, ErrorKind::Aborted);
    // the source has not exhausted its partitions, and steals no more of them
    assert_eq!(ctx.partition_queue.len(), 7);
    // a read that was under way may finish: its block is dropped
    let block = fuse_query::datablocks::data_block::DataBlock::empty_with_schema(select.schema());
    assert_eq!(select.on_arrival(&shared, block.clone()).unwrap_err().kind, ErrorKind::Aborted);
    assert_eq!(shared.on_arrival(block.clone()).unwrap_err().kind, ErrorKind::Aborted);
    // while the query runs, what arrives is handed on as it is
    let running = QueryContextShared::try_create(config("disk"), "query-2", "default", "root");
    assert_eq!(running.on_arrival(block.clone()), Ok(block.clone()));
    assert_eq!(select.on_arrival(&running, block.clone()), Ok(block));
}

#[test]
fn test_setting_precedence() {
    assert_eq!(effective(Some("env"), Some("file"), "default"), "env");
    assert_eq!(effective(None, Some("file"), "default"), "file");
    assert_eq!(effective(Some("env"), None, "default"), "env");
    assert_eq!(effective(None, None, "default"), "default");
    assert_eq!(effective(None, Some(8usize), 4), 8);
}

#[test]
fn test_get_config() {
    let mut shared = QueryContextShared::try_create(config("s3"), "q", "default", "");
    let ctx = QueryContext::from_shared(&mut shared, "abc");
    assert_eq!(ctx.get_config(&shared), config("s3"));
}
