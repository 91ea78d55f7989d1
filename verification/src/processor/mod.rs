pub mod close_delegate_boost_v2;
pub mod delegate_boost_v2;
pub mod delegate_stake;
pub mod init_delegate_boost_v2;
pub mod init_delegate_stake;
pub mod migrate_delegate_boost_to_v2;
pub mod mine;
pub mod open_managed_proof;
pub mod open_managed_proof_boost;
pub mod register_global_boost;
pub mod rotate_global_boost;
pub mod undelegate_boost_v2;
pub mod undelegate_stake;
pub mod update_miner_authority;
