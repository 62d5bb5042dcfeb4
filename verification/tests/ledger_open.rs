use tttb_backend::ledger_open::{open_plan, pending_count, CreateMissing, OpenPlan, OpenRefusal};

#[test]
fn missing_ledger_is_refused_unless_it_may_be_created() {
    assert_eq!(open_plan(true, false, CreateMissing::No), Err(OpenRefusal::Missing));
    assert_eq!(
        open_plan(true, false, CreateMissing::Yes),
        Ok(OpenPlan { create_parent_directory: true, create_if_missing: true, created_now: true })
    );
}

#[test]
fn existing_ledger_opens_as_not_new() {
    assert_eq!(
        open_plan(true, true, CreateMissing::No),
        Ok(OpenPlan { create_parent_directory: false, create_if_missing: false, created_now: false })
    );
    assert_eq!(
        open_plan(true, true, CreateMissing::Yes),
        Ok(OpenPlan { create_parent_directory: false, create_if_missing: true, created_now: false })
    );
}

#[test]
fn location_without_file_is_refused() {
    assert_eq!(open_plan(false, true, CreateMissing::Yes), Err(OpenRefusal::NotFileBacked));
}

#[test]
fn pending_counts_known_migrations_not_applied() {
    assert_eq!(pending_count(&[1, 2, 3, 4], &[]), 4);
    assert_eq!(pending_count(&[1, 2, 3, 4], &[2, 4, 9]), 2);
    assert_eq!(pending_count(&[1, 2], &[1, 2]), 0);
}
