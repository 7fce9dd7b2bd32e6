use karma::watchdog::{agent_needs_restart, environment_block, AgentChild};

#[test]
fn environment_block_ends_each_entry_and_the_block_with_zero() {
    let block = environment_block(&["A=1".to_string(), "B=é😀".to_string()]);
    assert_eq!(
        block,
        vec![
            'A' as u16, '=' as u16, '1' as u16, 0, 'B' as u16, '=' as u16, 0xE9, 0xD83D, 0xDE00,
            0, 0
        ]
    );
    assert_eq!(block, "A=1\0B=é😀\0\0".encode_utf16().collect::<Vec<u16>>());
    assert_eq!(environment_block(&[]), vec![0]);
}

#[test]
fn watchdog_restarts_missing_exited_or_foreign_session_agents() {
    assert!(agent_needs_restart(None, 1));
    assert!(agent_needs_restart(Some(AgentChild { running: false, session_id: 1 }), 1));
    assert!(agent_needs_restart(Some(AgentChild { running: true, session_id: 2 }), 1));
    assert!(!agent_needs_restart(Some(AgentChild { running: true, session_id: 1 }), 1));
}
