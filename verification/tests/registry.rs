use wale_contracts::addressing::derive_address;
use wale_contracts::keys::Pubkey;
use wale_contracts::mcp::ErrorCode;
use wale_contracts::mcp::ExecutionAccount;
use wale_contracts::mcp::ExecutionStatus;
use wale_contracts::mcp::McpRegistry;
use wale_contracts::mcp::TemplateAccount;
use wale_contracts::mcp::EXECUTION_TAG;
use wale_contracts::mcp::TEMPLATE_TAG;

fn key(n: u64) -> Pubkey {
    Pubkey { w0: n, w1: 0, w2: 0, w3: 0 }
}

fn create_template(registry: &mut McpRegistry, id: &[u8], creator: Pubkey, now: i64) -> Pubkey {
    registry
        .initialize_template(
            id.to_vec(),
            b"Workflow One".to_vec(),
            b"1.0".to_vec(),
            b"defi".to_vec(),
            creator,
            Vec::new(),
            now,
        )
        .unwrap();
    derive_address(TEMPLATE_TAG, &id.to_vec(), creator).unwrap().0
}

#[test]
fn template_then_execution_then_completion() {
    let creator_a = key(1);
    let user_a = key(2);
    let mut registry = McpRegistry::new();

    let event = registry
        .initialize_template(
            b"wf-1".to_vec(),
            b"Workflow One".to_vec(),
            b"1.0".to_vec(),
            b"defi".to_vec(),
            creator_a,
            Vec::new(),
            1_000,
        )
        .unwrap();
    assert_eq!(event.template_id, b"wf-1".to_vec());
    assert_eq!(event.creator, creator_a);
    assert_eq!(event.timestamp, 1_000);
    assert_eq!(registry.templates.len(), 1);
    assert_eq!(registry.templates[0].1.usage_count, 0);
    assert!(registry.templates[0].1.is_active);

    let template_address = derive_address(TEMPLATE_TAG, &b"wf-1".to_vec(), creator_a)
        .unwrap()
        .0;
    assert_eq!(registry.templates[0].0, template_address);

    let event = registry
        .record_execution(
            b"task-1".to_vec(),
            b"hash-of-inputs".to_vec(),
            Vec::new(),
            ExecutionStatus::InProgress,
            template_address,
            user_a,
            1_100,
        )
        .unwrap();
    assert_eq!(event.task_id, b"task-1".to_vec());
    assert_eq!(event.template_id, b"wf-1".to_vec());
    assert_eq!(event.user, user_a);
    assert_eq!(event.status, ExecutionStatus::InProgress);
    assert_eq!(registry.templates[0].1.usage_count, 1);
    assert_eq!(registry.executions.len(), 1);
    assert_eq!(registry.executions[0].1.completed_at, 0);
    assert_eq!(registry.executions[0].1.started_at, 1_100);

    let execution_address = derive_address(EXECUTION_TAG, &b"task-1".to_vec(), user_a)
        .unwrap()
        .0;
    assert_eq!(registry.executions[0].0, execution_address);

    let event = registry
        .update_execution(
            execution_address,
            user_a,
            ExecutionStatus::Success,
            Some(b"abc123".to_vec()),
            1_200,
        )
        .unwrap();
    assert_eq!(event.status, ExecutionStatus::Success);
    assert_eq!(event.timestamp, 1_200);
    assert_eq!(registry.executions[0].1.status, ExecutionStatus::Success);
    assert_eq!(registry.executions[0].1.completed_at, 1_200);
    assert_eq!(registry.executions[0].1.outputs_hash, b"abc123".to_vec());

    let refused = registry.update_execution(
        execution_address,
        user_a,
        ExecutionStatus::Failure,
        None,
        1_300,
    );
    assert_eq!(refused, Err(ErrorCode::InvalidExecutionStatus));
    assert_eq!(registry.executions[0].1.status, ExecutionStatus::Success);
    assert_eq!(registry.executions[0].1.completed_at, 1_200);
}

#[test]
fn usage_count_grows_once_per_execution() {
    let creator = key(3);
    let mut registry = McpRegistry::new();
    let template_address = create_template(&mut registry, b"wf-2", creator, 500);
    for n in 0..5u64 {
        let task = format!("task-{}", n);
        registry
            .record_execution(
                task.as_bytes().to_vec(),
                b"in".to_vec(),
                b"out".to_vec(),
                ExecutionStatus::Success,
                template_address,
                key(50 + n),
                600 + n as i64,
            )
            .unwrap();
        assert_eq!(registry.templates[0].1.usage_count, n + 1);
    }
}

#[test]
fn template_validation_errors() {
    let creator = key(4);
    let mut registry = McpRegistry::new();
    let long = vec![b'x'; 65];
    let r = registry.initialize_template(
        long,
        b"n".to_vec(),
        b"v".to_vec(),
        b"c".to_vec(),
        creator,
        Vec::new(),
        1,
    );
    assert_eq!(r, Err(ErrorCode::TemplateTooLong));
    let r = registry.initialize_template(
        b"id".to_vec(),
        vec![b'n'; 101],
        b"v".to_vec(),
        b"c".to_vec(),
        creator,
        Vec::new(),
        1,
    );
    assert_eq!(r, Err(ErrorCode::NameTooLong));
    let r = registry.initialize_template(
        b"id".to_vec(),
        b"n".to_vec(),
        vec![b'v'; 21],
        b"c".to_vec(),
        creator,
        Vec::new(),
        1,
    );
    assert_eq!(r, Err(ErrorCode::VersionTooLong));
    let r = registry.initialize_template(
        b"id".to_vec(),
        b"n".to_vec(),
        b"v".to_vec(),
        vec![b'c'; 21],
        creator,
        Vec::new(),
        1,
    );
    assert_eq!(r, Err(ErrorCode::CategoryTooLong));
    let r = registry.initialize_template(
        b"id".to_vec(),
        b"n".to_vec(),
        b"v".to_vec(),
        b"c".to_vec(),
        creator,
        vec![0u8; 1025],
        1,
    );
    assert_eq!(r, Err(ErrorCode::MetadataTooLarge));
    assert_eq!(registry.templates.len(), 0);
}

#[test]
fn duplicate_template_is_a_conflict() {
    let creator = key(5);
    let mut registry = McpRegistry::new();
    create_template(&mut registry, b"wf-dup", creator, 10);
    let r = registry.initialize_template(
        b"wf-dup".to_vec(),
        b"Another".to_vec(),
        b"2.0".to_vec(),
        b"dao".to_vec(),
        creator,
        Vec::new(),
        20,
    );
    assert_eq!(r, Err(ErrorCode::AlreadyExists));
    assert_eq!(registry.templates.len(), 1);
    // The same identifier under another creator is a different address.
    let other = key(6);
    let r = registry.initialize_template(
        b"wf-dup".to_vec(),
        b"Another".to_vec(),
        b"2.0".to_vec(),
        b"dao".to_vec(),
        other,
        Vec::new(),
        20,
    );
    assert!(r.is_ok());
    assert_eq!(registry.templates.len(), 2);
}

#[test]
fn execution_validation_and_conflicts() {
    let creator = key(7);
    let user = key(8);
    let mut registry = McpRegistry::new();
    let template_address = create_template(&mut registry, b"wf-3", creator, 10);

    let r = registry.record_execution(
        vec![b't'; 65],
        b"in".to_vec(),
        b"out".to_vec(),
        ExecutionStatus::InProgress,
        template_address,
        user,
        20,
    );
    assert_eq!(r, Err(ErrorCode::TaskIdTooLong));
    let r = registry.record_execution(
        b"t".to_vec(),
        vec![b'h'; 65],
        b"out".to_vec(),
        ExecutionStatus::InProgress,
        template_address,
        user,
        20,
    );
    assert_eq!(r, Err(ErrorCode::HashTooLong));
    let r = registry.record_execution(
        b"t".to_vec(),
        b"in".to_vec(),
        vec![b'h'; 65],
        ExecutionStatus::InProgress,
        template_address,
        user,
        20,
    );
    assert_eq!(r, Err(ErrorCode::HashTooLong));

    let r = registry.record_execution(
        b"t".to_vec(),
        b"in".to_vec(),
        b"out".to_vec(),
        ExecutionStatus::InProgress,
        key(99),
        user,
        20,
    );
    assert_eq!(r, Err(ErrorCode::AccountNotFound));
    assert_eq!(registry.templates[0].1.usage_count, 0);

    registry
        .record_execution(
            b"t".to_vec(),
            b"in".to_vec(),
            b"out".to_vec(),
            ExecutionStatus::InProgress,
            template_address,
            user,
            20,
        )
        .unwrap();
    let r = registry.record_execution(
        b"t".to_vec(),
        b"in2".to_vec(),
        b"out2".to_vec(),
        ExecutionStatus::InProgress,
        template_address,
        user,
        30,
    );
    assert_eq!(r, Err(ErrorCode::AlreadyExists));
    assert_eq!(registry.templates[0].1.usage_count, 1);
    assert_eq!(registry.executions.len(), 1);
}

#[test]
fn terminal_initial_status_completes_immediately() {
    let creator = key(9);
    let user = key(10);
    let mut registry = McpRegistry::new();
    let template_address = create_template(&mut registry, b"wf-4", creator, 10);
    registry
        .record_execution(
            b"done-at-birth".to_vec(),
            b"in".to_vec(),
            b"out".to_vec(),
            ExecutionStatus::Failure,
            template_address,
            user,
            77,
        )
        .unwrap();
    assert_eq!(registry.executions[0].1.status, ExecutionStatus::Failure);
    assert_eq!(registry.executions[0].1.completed_at, 77);
}

#[test]
fn update_execution_authorization_and_validation() {
    let creator = key(11);
    let user = key(12);
    let mut registry = McpRegistry::new();
    let template_address = create_template(&mut registry, b"wf-5", creator, 10);
    registry
        .record_execution(
            b"task".to_vec(),
            b"in".to_vec(),
            Vec::new(),
            ExecutionStatus::InProgress,
            template_address,
            user,
            20,
        )
        .unwrap();
    let execution_address = registry.executions[0].0;

    let r = registry.update_execution(key(99), user, ExecutionStatus::Success, None, 30);
    assert_eq!(r, Err(ErrorCode::AccountNotFound));
    let r = registry.update_execution(execution_address, key(13), ExecutionStatus::Success, None, 30);
    assert_eq!(r, Err(ErrorCode::Unauthorized));
    let r = registry.update_execution(
        execution_address,
        user,
        ExecutionStatus::Success,
        Some(vec![b'h'; 65]),
        30,
    );
    assert_eq!(r, Err(ErrorCode::HashTooLong));
    assert_eq!(registry.executions[0].1.status, ExecutionStatus::InProgress);

    // A transition back to in-progress is permitted while still in progress
    // and leaves the record incomplete.
    registry
        .update_execution(execution_address, user, ExecutionStatus::InProgress, None, 40)
        .unwrap();
    assert_eq!(registry.executions[0].1.status, ExecutionStatus::InProgress);
    assert_eq!(registry.executions[0].1.completed_at, 0);
}

#[test]
fn update_template_rewrites_only_provided_fields() {
    let creator = key(14);
    let mut registry = McpRegistry::new();
    let template_address = create_template(&mut registry, b"wf-6", creator, 10);

    let r = registry.update_template(template_address, key(15), None, None, None, None, 20);
    assert_eq!(r, Err(ErrorCode::Unauthorized));

    let r = registry.update_template(
        template_address,
        creator,
        Some(vec![b'n'; 101]),
        None,
        None,
        None,
        20,
    );
    assert_eq!(r, Err(ErrorCode::NameTooLong));
    let r = registry.update_template(
        template_address,
        creator,
        None,
        Some(vec![b'v'; 21]),
        None,
        None,
        20,
    );
    assert_eq!(r, Err(ErrorCode::VersionTooLong));
    let r = registry.update_template(
        template_address,
        creator,
        None,
        None,
        Some(vec![0u8; 1025]),
        None,
        20,
    );
    assert_eq!(r, Err(ErrorCode::MetadataTooLarge));
    assert_eq!(registry.templates[0].1.template_name, b"Workflow One".to_vec());

    let event = registry
        .update_template(
            template_address,
            creator,
            Some(b"Renamed".to_vec()),
            None,
            Some(vec![7u8; 3]),
            Some(false),
            30,
        )
        .unwrap();
    assert_eq!(event.template_id, b"wf-6".to_vec());
    assert_eq!(event.updater, creator);
    assert_eq!(event.timestamp, 30);
    let template = &registry.templates[0].1;
    assert_eq!(template.template_name, b"Renamed".to_vec());
    assert_eq!(template.template_version, b"1.0".to_vec());
    assert_eq!(template.metadata, vec![7u8; 3]);
    assert!(!template.is_active);
    assert_eq!(template.usage_count, 0);
    assert_eq!(template.updated_at, 30);
    assert_eq!(template.created_at, 10);

    let r = registry.update_template(key(99), creator, None, None, None, None, 40);
    assert_eq!(r, Err(ErrorCode::AccountNotFound));
}

#[test]
fn default_execution_status_is_in_progress() {
    assert_eq!(ExecutionStatus::default(), ExecutionStatus::InProgress);
}

#[test]
fn derivation_is_deterministic_and_owner_sensitive() {
    let owner = key(21);
    let first = derive_address(TEMPLATE_TAG, &b"wf-7".to_vec(), owner).unwrap();
    let second = derive_address(TEMPLATE_TAG, &b"wf-7".to_vec(), owner).unwrap();
    assert_eq!(first, second);
    let other_owner = derive_address(TEMPLATE_TAG, &b"wf-7".to_vec(), key(22)).unwrap();
    assert_ne!(first.0, other_owner.0);
    let other_id = derive_address(TEMPLATE_TAG, &b"wf-8".to_vec(), owner).unwrap();
    assert_ne!(first.0, other_id.0);
    let other_namespace = derive_address(EXECUTION_TAG, &b"wf-7".to_vec(), owner).unwrap();
    assert_ne!(first.0, other_namespace.0);
}

#[test]
fn template_space_matches_fixed_plus_variable_layout() {
    assert_eq!(TemplateAccount::space(&b"wf-1".to_vec()), 1254);
    assert_eq!(TemplateAccount::space(&Vec::new()), 1250);
    assert_eq!(TemplateAccount::space(&vec![b'x'; 64]), 1314);
}

#[test]
fn execution_space_matches_fixed_plus_variable_layout() {
    assert_eq!(ExecutionAccount::space(&b"task-1".to_vec()), 239);
    assert_eq!(ExecutionAccount::space(&Vec::new()), 233);
    assert_eq!(ExecutionAccount::space(&vec![b'x'; 64]), 297);
}

#[test]
fn template_encoding_fills_capacity_at_maximal_fields() {
    let creator = key(31);
    let mut registry = McpRegistry::new();
    registry
        .initialize_template(
            b"wf-full".to_vec(),
            vec![b'n'; 100],
            vec![b'v'; 20],
            vec![b'c'; 20],
            creator,
            vec![9u8; 1024],
            50,
        )
        .unwrap();
    let encoded = registry.templates[0].1.encode();
    assert_eq!(encoded.len(), TemplateAccount::space(&b"wf-full".to_vec()));
    // Record kind tag, then the 4-byte count of the 7-byte identifier.
    assert_eq!(&encoded[0..8], &[1, 0, 0, 0, 0, 0, 0, 0]);
    assert_eq!(&encoded[8..12], &[7, 0, 0, 0]);
    assert_eq!(&encoded[12..19], b"wf-full");
}

#[test]
fn shorter_fields_encode_below_capacity() {
    let creator = key(32);
    let mut registry = McpRegistry::new();
    create_template(&mut registry, b"wf-small", creator, 60);
    let encoded = registry.templates[0].1.encode();
    assert!(encoded.len() < TemplateAccount::space(&b"wf-small".to_vec()));
}

#[test]
fn execution_encoding_fills_capacity_at_maximal_fields() {
    let creator = key(33);
    let user = key(34);
    let mut registry = McpRegistry::new();
    let template_address = create_template(&mut registry, b"wf-9", creator, 10);
    registry
        .record_execution(
            b"task-full".to_vec(),
            vec![b'i'; 64],
            vec![b'o'; 64],
            ExecutionStatus::Success,
            template_address,
            user,
            20,
        )
        .unwrap();
    let encoded = registry.executions[0].1.encode();
    assert_eq!(encoded.len(), ExecutionAccount::space(&b"task-full".to_vec()));
    assert_eq!(&encoded[0..8], &[2, 0, 0, 0, 0, 0, 0, 0]);
}
