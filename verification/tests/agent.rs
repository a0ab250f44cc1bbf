use anchor_lang::prelude::Pubkey as AnchorPubkey;
use apollo_swarm::account::Account;
use apollo_swarm::apollo_swarm::{register_agent, update_agent};
use apollo_swarm::constants::AGENT_SEED;
use apollo_swarm::errors::{ApolloError, Error, ErrorCode};
use apollo_swarm::instructions::{RegisterAgent, UpdateAgent};
use apollo_swarm::pubkey::Pubkey;
use apollo_swarm::state::{Agent, AgentStatus};

fn key(n: u8) -> Pubkey {
    Pubkey::new_from_array([n; 32])
}

fn agent_pda(authority: &Pubkey) -> (Pubkey, u8) {
    let (k, b) = AnchorPubkey::find_program_address(
        &[&AGENT_SEED, &authority.bytes],
        &AnchorPubkey::new_from_array(apollo_swarm::ID_BYTES),
    );
    (Pubkey::new_from_array(k.to_bytes()), b)
}

fn registered(authority: Pubkey) -> Account<Agent> {
    let (address, _) = agent_pda(&authority);
    let ctx = RegisterAgent { authority, agent: address };
    let (agent, _) = register_agent(&ctx, "worker".to_string(), "ipfs://a".to_string(), 100).unwrap();
    Account { key: address, data: agent }
}

#[test]
fn register_agent_creates_an_active_agent() {
    let authority = key(1);
    let (address, bump) = agent_pda(&authority);
    let ctx = RegisterAgent { authority, agent: address };
    let (agent, event) =
        register_agent(&ctx, "worker".to_string(), "ipfs://agent.json".to_string(), 1234).unwrap();
    assert_eq!(agent.authority, authority);
    assert_eq!(agent.role, "worker");
    assert_eq!(agent.metadata_uri, "ipfs://agent.json");
    assert_eq!(agent.status, 0);
    assert!(agent.is_active());
    assert_eq!(agent.reputation, 0);
    assert_eq!(agent.tasks_completed, 0);
    assert_eq!(agent.tasks_failed, 0);
    assert_eq!(agent.created_at, 1234);
    assert_eq!(agent.bump, bump);
    assert_eq!(event.agent, address);
    assert_eq!(event.authority, authority);
    assert_eq!(event.role, "worker");
}

#[test]
fn register_agent_at_another_address_is_refused() {
    let authority = key(1);
    let ctx = RegisterAgent { authority, agent: key(2) };
    let r = register_agent(&ctx, "worker".to_string(), String::new(), 0);
    assert_eq!(r.err(), Some(Error::Anchor(ErrorCode::ConstraintSeeds)));
}

#[test]
fn register_agent_counts_role_bytes() {
    let authority = key(1);
    let (address, _) = agent_pda(&authority);
    let ctx = RegisterAgent { authority, agent: address };
    // 32 bytes fit.
    assert!(register_agent(&ctx, "r".repeat(32), String::new(), 0).is_ok());
    // 33 bytes do not.
    let r = register_agent(&ctx, "r".repeat(33), String::new(), 0);
    assert_eq!(r.err(), Some(Error::Apollo(ApolloError::StringTooLong)));
    // 11 characters of 3 bytes each are 33 bytes.
    let r = register_agent(&ctx, "€".repeat(11), String::new(), 0);
    assert_eq!(r.err(), Some(Error::Apollo(ApolloError::StringTooLong)));
    // Metadata is limited to 200 bytes.
    assert!(register_agent(&ctx, String::new(), "m".repeat(200), 0).is_ok());
    let r = register_agent(&ctx, String::new(), "m".repeat(201), 0);
    assert_eq!(r.err(), Some(Error::Apollo(ApolloError::StringTooLong)));
}

#[test]
fn update_agent_changes_status_and_metadata() {
    let authority = key(4);
    let mut ctx = UpdateAgent { authority, agent: registered(authority) };
    let event = update_agent(&mut ctx, Some(1), Some("ipfs://new".to_string())).unwrap();
    assert_eq!(ctx.agent.data.status, 1);
    assert_eq!(ctx.agent.data.metadata_uri, "ipfs://new");
    assert!(!ctx.agent.data.is_active());
    assert_eq!(event.status, 1);
    assert_eq!(event.agent, ctx.agent.key);
    // Leaving both out changes nothing and announces the status.
    let event = update_agent(&mut ctx, None, None).unwrap();
    assert_eq!(event.status, 1);
    assert_eq!(ctx.agent.data.metadata_uri, "ipfs://new");
}

#[test]
fn update_agent_refuses_bad_status_first() {
    let authority = key(4);
    let mut ctx = UpdateAgent { authority, agent: registered(authority) };
    let r = update_agent(&mut ctx, Some(3), Some("m".repeat(201)));
    assert_eq!(r.err(), Some(Error::Apollo(ApolloError::InvalidTaskState)));
    assert_eq!(ctx.agent.data.status, 0);
    let r = update_agent(&mut ctx, Some(2), Some("m".repeat(201)));
    assert_eq!(r.err(), Some(Error::Apollo(ApolloError::StringTooLong)));
    // A refused update changes nothing.
    assert_eq!(ctx.agent.data.status, 0);
    assert_eq!(ctx.agent.data.metadata_uri, "ipfs://a");
}

#[test]
fn update_agent_checks_the_signer() {
    let authority = key(4);
    // Another signer: the agent account does not derive from it.
    let mut ctx = UpdateAgent { authority: key(5), agent: registered(authority) };
    let r = update_agent(&mut ctx, Some(2), None);
    assert_eq!(r.err(), Some(Error::Anchor(ErrorCode::ConstraintSeeds)));
    // The right address but another authority recorded.
    let mut agent = registered(authority);
    agent.data.authority = key(6);
    let mut ctx = UpdateAgent { authority, agent };
    let r = update_agent(&mut ctx, Some(2), None);
    assert_eq!(r.err(), Some(Error::Apollo(ApolloError::UnauthorizedAgent)));
    assert_eq!(ctx.agent.data.status, 0);
}

#[test]
fn status_numbers_round_trip() {
    for s in [AgentStatus::Active, AgentStatus::Paused, AgentStatus::Revoked] {
        assert_eq!(AgentStatus::from(s.as_u8()), s);
    }
    assert_eq!(AgentStatus::from(7u8), AgentStatus::Active);
    assert_eq!(AgentStatus::Revoked.as_u8(), 2);
}

#[test]
fn error_codes_follow_the_declaration() {
    assert_eq!(ApolloError::StringTooLong.code(), 6000);
    assert_eq!(ApolloError::InvalidTaskState.code(), 6007);
    assert_eq!(ApolloError::InvalidMemberCount.code(), 6015);
    assert_eq!(Error::Anchor(ErrorCode::ConstraintSeeds).code(), Some(2006));
    assert_eq!(Error::Aborted.code(), None);
    assert_eq!(Error::Apollo(ApolloError::NotMember).code(), Some(6005));
    assert_eq!(ApolloError::MathOverflow.msg(), "Math overflow");
}
