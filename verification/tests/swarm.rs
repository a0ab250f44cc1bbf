use anchor_lang::prelude::Pubkey as AnchorPubkey;
use apollo_swarm::account::Account;
use apollo_swarm::apollo_swarm::{add_member, create_swarm, remove_member};
use apollo_swarm::constants::{AGENT_SEED, MEMBER_SEED, SWARM_SEED, TREASURY_SEED};
use apollo_swarm::errors::{ApolloError, Error, ErrorCode};
use apollo_swarm::instructions::{AddMember, CreateSwarm, RemoveMember};
use apollo_swarm::pubkey::Pubkey;
use apollo_swarm::state::{Agent, CoordModel, Membership, Swarm};

fn key(n: u8) -> Pubkey {
    Pubkey::new_from_array([n; 32])
}

fn pda(seeds: &[&[u8]]) -> (Pubkey, u8) {
    let (k, b) = AnchorPubkey::find_program_address(
        seeds,
        &AnchorPubkey::new_from_array(apollo_swarm::ID_BYTES),
    );
    (Pubkey::new_from_array(k.to_bytes()), b)
}

fn new_swarm(authority: Pubkey, swarm_id: u64) -> Account<Swarm> {
    let (swarm, _) = pda(&[&SWARM_SEED, &authority.bytes, &swarm_id.to_le_bytes()]);
    let (treasury, _) = pda(&[&TREASURY_SEED, &swarm.bytes]);
    let ctx = CreateSwarm { authority, swarm, treasury };
    let (data, _) =
        create_swarm(&ctx, swarm_id, "demo".to_string(), "ipfs://s".to_string(), 1, 2, 50).unwrap();
    Account { key: swarm, data }
}

fn new_agent(authority: Pubkey, status: u8) -> Account<Agent> {
    let (k, bump) = pda(&[&AGENT_SEED, &authority.bytes]);
    Account {
        key: k,
        data: Agent {
            authority,
            role: "worker".to_string(),
            metadata_uri: String::new(),
            status,
            reputation: 0,
            tasks_completed: 0,
            tasks_failed: 0,
            created_at: 0,
            bump,
        },
    }
}

fn add_ctx(authority: Pubkey, swarm: Account<Swarm>, agent: Account<Agent>) -> AddMember {
    let (membership, _) = pda(&[&MEMBER_SEED, &swarm.key.bytes, &agent.key.bytes]);
    AddMember { authority, swarm, agent, membership }
}

#[test]
fn create_swarm_starts_empty() {
    let authority = key(1);
    let (swarm, swarm_bump) = pda(&[&SWARM_SEED, &authority.bytes, &7u64.to_le_bytes()]);
    let (treasury, treasury_bump) = pda(&[&TREASURY_SEED, &swarm.bytes]);
    let ctx = CreateSwarm { authority, swarm, treasury };
    let (data, event) =
        create_swarm(&ctx, 7, "apollo-demo".to_string(), "ipfs://swarm.json".to_string(), 1, 2, 9)
            .unwrap();
    assert_eq!(data.authority, authority);
    assert_eq!(data.swarm_id, 7);
    assert_eq!(data.name, "apollo-demo");
    assert_eq!(data.coord_model, 1);
    assert_eq!(data.approval_threshold, 2);
    assert_eq!(data.member_count, 0);
    assert_eq!(data.task_count, 0);
    assert_eq!(data.total_share_bps, 0);
    assert_eq!(data.bump, swarm_bump);
    assert_eq!(data.treasury_bump, treasury_bump);
    assert_eq!(data.created_at, 9);
    assert_eq!(event.swarm, swarm);
    assert_eq!(event.creator, authority);
    assert_eq!(event.swarm_id, 7);
    assert_eq!(event.coord_model, 1);
}

#[test]
fn create_swarm_refusals() {
    let authority = key(1);
    let (swarm, _) = pda(&[&SWARM_SEED, &authority.bytes, &7u64.to_le_bytes()]);
    let (treasury, _) = pda(&[&TREASURY_SEED, &swarm.bytes]);
    let ctx = CreateSwarm { authority, swarm, treasury };
    let r = create_swarm(&ctx, 7, "n".repeat(65), String::new(), 0, 0, 0);
    assert_eq!(r.err(), Some(Error::Apollo(ApolloError::StringTooLong)));
    let r = create_swarm(&ctx, 7, "n".repeat(64), "m".repeat(201), 0, 0, 0);
    assert_eq!(r.err(), Some(Error::Apollo(ApolloError::StringTooLong)));
    let r = create_swarm(&ctx, 7, String::new(), String::new(), 4, 0, 0);
    assert_eq!(r.err(), Some(Error::Apollo(ApolloError::UnsupportedCoordination)));
    assert!(create_swarm(&ctx, 7, String::new(), String::new(), 3, 0, 0).is_ok());
    // The number in the seeds must be the one given.
    let r = create_swarm(&ctx, 8, String::new(), String::new(), 0, 0, 0);
    assert_eq!(r.err(), Some(Error::Anchor(ErrorCode::ConstraintSeeds)));
    // The treasury must derive from the swarm.
    let ctx = CreateSwarm { authority, swarm, treasury: key(3) };
    let r = create_swarm(&ctx, 7, String::new(), String::new(), 0, 0, 0);
    assert_eq!(r.err(), Some(Error::Anchor(ErrorCode::ConstraintSeeds)));
}

#[test]
fn add_member_records_share_and_count() {
    let authority = key(1);
    let mut ctx = add_ctx(authority, new_swarm(authority, 1), new_agent(key(2), 0));
    let (membership, event) = add_member(&mut ctx, "worker".to_string(), 8000, 77).unwrap();
    assert_eq!(ctx.swarm.data.member_count, 1);
    assert_eq!(ctx.swarm.data.total_share_bps, 8000);
    assert_eq!(membership.swarm, ctx.swarm.key);
    assert_eq!(membership.agent, ctx.agent.key);
    assert_eq!(membership.role, "worker");
    assert_eq!(membership.share_bps, 8000);
    assert_eq!(membership.tasks_executed, 0);
    assert_eq!(membership.joined_at, 77);
    let (_, bump) = pda(&[&MEMBER_SEED, &ctx.swarm.key.bytes, &ctx.agent.key.bytes]);
    assert_eq!(membership.bump, bump);
    assert_eq!(event.share_bps, 8000);
    assert_eq!(event.role, "worker");
}

#[test]
fn add_member_keeps_shares_within_ten_thousand() {
    let authority = key(1);
    let mut ctx = add_ctx(authority, new_swarm(authority, 1), new_agent(key(2), 0));
    ctx.swarm.data.total_share_bps = 9000;
    let r = add_member(&mut ctx, "w".to_string(), 1001, 0);
    assert_eq!(r.err(), Some(Error::Apollo(ApolloError::ShareOverflow)));
    assert_eq!(ctx.swarm.data.total_share_bps, 9000);
    assert_eq!(ctx.swarm.data.member_count, 0);
    assert!(add_member(&mut ctx, "w".to_string(), 1000, 0).is_ok());
    assert_eq!(ctx.swarm.data.total_share_bps, 10_000);
}

#[test]
fn add_member_overflows() {
    let authority = key(1);
    let mut ctx = add_ctx(authority, new_swarm(authority, 1), new_agent(key(2), 0));
    ctx.swarm.data.total_share_bps = 60_000;
    let r = add_member(&mut ctx, "w".to_string(), 6000, 0);
    assert_eq!(r.err(), Some(Error::Apollo(ApolloError::MathOverflow)));
    ctx.swarm.data.total_share_bps = 0;
    ctx.swarm.data.member_count = u32::MAX;
    let r = add_member(&mut ctx, "w".to_string(), 1, 0);
    assert_eq!(r.err(), Some(Error::Apollo(ApolloError::MathOverflow)));
    assert_eq!(ctx.swarm.data.member_count, u32::MAX);
}

#[test]
fn add_member_refusals() {
    let authority = key(1);
    // An inactive agent.
    let mut ctx = add_ctx(authority, new_swarm(authority, 1), new_agent(key(2), 1));
    let r = add_member(&mut ctx, "w".to_string(), 1, 0);
    assert_eq!(r.err(), Some(Error::Apollo(ApolloError::AgentInactive)));
    // A role too long comes first.
    let r = add_member(&mut ctx, "w".repeat(33), 1, 0);
    assert_eq!(r.err(), Some(Error::Apollo(ApolloError::StringTooLong)));
    // A signer that does not govern the swarm.
    let mut ctx = add_ctx(key(9), new_swarm(authority, 1), new_agent(key(2), 0));
    let r = add_member(&mut ctx, "w".to_string(), 1, 0);
    assert_eq!(r.err(), Some(Error::Apollo(ApolloError::UnauthorizedSwarm)));
    // A membership address that does not derive from swarm and agent.
    let mut ctx = add_ctx(authority, new_swarm(authority, 1), new_agent(key(2), 0));
    ctx.membership = key(8);
    let r = add_member(&mut ctx, "w".to_string(), 1, 0);
    assert_eq!(r.err(), Some(Error::Anchor(ErrorCode::ConstraintSeeds)));
    // An agent account that is not at its address.
    let mut agent = new_agent(key(2), 0);
    agent.data.authority = key(3);
    let mut ctx = add_ctx(authority, new_swarm(authority, 1), agent);
    let r = add_member(&mut ctx, "w".to_string(), 1, 0);
    assert_eq!(r.err(), Some(Error::Anchor(ErrorCode::ConstraintSeeds)));
}

fn membership_of(ctx: &AddMember, data: Membership) -> Account<Membership> {
    Account { key: ctx.membership, data }
}

#[test]
fn remove_member_undoes_add_member() {
    let authority = key(1);
    let mut ctx = add_ctx(authority, new_swarm(authority, 1), new_agent(key(2), 0));
    ctx.swarm.data.total_share_bps = 1234;
    ctx.swarm.data.member_count = 3;
    let (m, _) = add_member(&mut ctx, "w".to_string(), 2500, 0).unwrap();
    let membership = membership_of(&ctx, m);
    let mut rm = RemoveMember { authority, swarm: ctx.swarm, membership };
    let event = remove_member(&mut rm).unwrap();
    assert_eq!(rm.swarm.data.total_share_bps, 1234);
    assert_eq!(rm.swarm.data.member_count, 3);
    assert_eq!(event.swarm, rm.swarm.key);
    assert_eq!(event.agent, rm.membership.data.agent);
}

#[test]
fn remove_member_refusals() {
    let authority = key(1);
    let mut ctx = add_ctx(authority, new_swarm(authority, 1), new_agent(key(2), 0));
    let (m, _) = add_member(&mut ctx, "w".to_string(), 2500, 0).unwrap();
    let membership = membership_of(&ctx, m);
    let mut rm = RemoveMember { authority, swarm: ctx.swarm, membership };
    // No members counted.
    rm.swarm.data.member_count = 0;
    assert_eq!(remove_member(&mut rm).err(), Some(Error::Apollo(ApolloError::InvalidMemberCount)));
    // Share total below the member's share.
    rm.swarm.data.member_count = 1;
    rm.swarm.data.total_share_bps = 100;
    assert_eq!(remove_member(&mut rm).err(), Some(Error::Apollo(ApolloError::MathOverflow)));
    assert_eq!(rm.swarm.data.member_count, 1);
    // A membership that names another swarm.
    rm.swarm.data.total_share_bps = 2500;
    rm.membership.data.swarm = key(4);
    assert_eq!(remove_member(&mut rm).err(), Some(Error::Apollo(ApolloError::NotMember)));
    // A signer that does not govern the swarm.
    rm.membership.data.swarm = rm.swarm.key;
    rm.authority = key(5);
    assert_eq!(remove_member(&mut rm).err(), Some(Error::Apollo(ApolloError::UnauthorizedSwarm)));
}

#[test]
fn coordination_numbers_round_trip() {
    for m in [CoordModel::RoleBased, CoordModel::ThresholdApproval, CoordModel::RoundRobin, CoordModel::Voting] {
        assert_eq!(CoordModel::from(m.as_u8()), m);
    }
    assert_eq!(CoordModel::from(9u8), CoordModel::RoleBased);
}

#[test]
fn swarm_books_follow_its_memberships() {
    let authority = key(1);
    let mut s = new_swarm(authority, 1);
    let mut members: Vec<Account<Membership>> = Vec::new();
    for (n, share) in [(2u8, 5000u16), (3, 3000), (4, 2000)] {
        let mut ctx = add_ctx(authority, s, new_agent(key(n), 0));
        let (m, _) = add_member(&mut ctx, "w".to_string(), share, 0).unwrap();
        members.push(Account { key: ctx.membership, data: m });
        s = ctx.swarm;
        let sum: u16 = members.iter().map(|m| m.data.share_bps).sum();
        assert_eq!(s.data.total_share_bps, sum);
        assert_eq!(s.data.member_count as usize, members.len());
    }
    // No more room for shares.
    let mut ctx = add_ctx(authority, s, new_agent(key(5), 0));
    assert_eq!(add_member(&mut ctx, "w".to_string(), 1, 0).err(), Some(Error::Apollo(ApolloError::ShareOverflow)));
    s = ctx.swarm;
    // Removing the middle member keeps the books.
    let middle = members.remove(1);
    let mut rm = RemoveMember { authority, swarm: s, membership: middle };
    remove_member(&mut rm).unwrap();
    let sum: u16 = members.iter().map(|m| m.data.share_bps).sum();
    assert_eq!(rm.swarm.data.total_share_bps, sum);
    assert_eq!(rm.swarm.data.member_count as usize, members.len());
}
