use rpc_dispatch::router::{
    find, Capabilities, Entry, GuiStorageMethod, Handler, LightningMethod, NoSuchMethod, Router,
    RpcMethod, StakingMethod, StakingQueryMethod, StreamMethod, TaskOperation, TaskPhase,
};
use rpc_dispatch::text::{str_eq, strip_prefix};

fn server() -> Capabilities {
    Capabilities { lightning: true, metamask: false, sia: false }
}

fn browser() -> Capabilities {
    Capabilities { lightning: false, metamask: true, sia: false }
}

#[test]
fn top_level_methods_are_found() {
    let router = Router::new(server());
    assert_eq!(router.dispatcher_v2("withdraw"), Ok(Handler::Rpc(RpcMethod::Withdraw)));
    assert_eq!(router.dispatcher_v2("account_balance"), Ok(Handler::Rpc(RpcMethod::AccountBalance)));
    assert_eq!(router.dispatcher_v2("orderbook"), Ok(Handler::Rpc(RpcMethod::Orderbook)));
    assert_eq!(
        router.dispatcher_v2("1inch_v6_0_classic_swap_tokens"),
        Ok(Handler::Rpc(RpcMethod::OneInchV60ClassicSwapTokens))
    );
    assert_eq!(router.dispatcher_v2("z_coin_tx_history"), Ok(Handler::Rpc(RpcMethod::ZCoinTxHistory)));
}

#[test]
fn nft_activation_shares_the_erc20_handler() {
    let router = Router::new(server());
    assert_eq!(router.dispatcher_v2("enable_erc20"), Ok(Handler::Rpc(RpcMethod::EnableErc20)));
    assert_eq!(router.dispatcher_v2("enable_nft"), Ok(Handler::Rpc(RpcMethod::EnableErc20)));
}

#[test]
fn unknown_methods_are_refused() {
    let router = Router::new(server());
    for method in ["", "no_such", "Withdraw", "withdraw ", "withdraw::", "::withdraw", "task", "task:", "stream"] {
        assert_eq!(router.dispatcher_v2(method), Err(NoSuchMethod), "{}", method);
    }
}

#[test]
fn unknown_names_inside_a_namespace_are_refused() {
    let router = Router::new(server());
    for method in [
        "task::",
        "task::withdraw",
        "task::withdraw::",
        "task::withdraw::start",
        "task::account_balance::user_action",
        "task::scan_for_new_addresses::user_action",
        "stream::enable",
        "stream::balance",
        "gui_storage::",
        "gui_storage::drop_account",
        "lightning::channels",
        "experimental::",
        "experimental::staking",
        "experimental::staking::",
        "experimental::staking::query",
        "experimental::staking::query::",
        "experimental::staking::query::delegate",
        "experimental::query::validators",
        "experimental::delegate",
    ] {
        assert_eq!(router.dispatcher_v2(method), Err(NoSuchMethod), "{}", method);
    }
}

#[test]
fn a_top_level_name_is_not_found_under_a_namespace() {
    let router = Router::new(server());
    assert_eq!(router.dispatcher_v2("task::withdraw"), Err(NoSuchMethod));
    assert_eq!(router.dispatcher_v2("stream::orderbook"), Err(NoSuchMethod));
    assert_eq!(router.dispatcher_v2("gui_storage::withdraw"), Err(NoSuchMethod));
}

#[test]
fn task_methods_are_operation_and_phase() {
    let router = Router::new(server());
    assert_eq!(
        router.dispatcher_v2("task::withdraw::init"),
        Ok(Handler::Task(TaskOperation::Withdraw, TaskPhase::Init))
    );
    assert_eq!(
        router.dispatcher_v2("task::withdraw::status"),
        Ok(Handler::Task(TaskOperation::Withdraw, TaskPhase::Status))
    );
    assert_eq!(
        router.dispatcher_v2("task::withdraw::cancel"),
        Ok(Handler::Task(TaskOperation::Withdraw, TaskPhase::Cancel))
    );
    assert_eq!(
        router.dispatcher_v2("task::withdraw::user_action"),
        Ok(Handler::Task(TaskOperation::Withdraw, TaskPhase::UserAction))
    );
    assert_eq!(
        router.dispatcher_v2("task::create_new_account::init"),
        Ok(Handler::Task(TaskOperation::CreateNewAccount, TaskPhase::Init))
    );
    assert_eq!(
        router.dispatcher_v2("task::enable_z_coin::cancel"),
        Ok(Handler::Task(TaskOperation::EnableZCoin, TaskPhase::Cancel))
    );
    assert_eq!(
        router.rpc_task_dispatcher("init_trezor::user_action"),
        Ok(Handler::Task(TaskOperation::InitTrezor, TaskPhase::UserAction))
    );
}

#[test]
fn the_first_prefix_decides() {
    let router = Router::new(server());
    assert_eq!(router.dispatcher_v2("stream::task::withdraw::init"), Err(NoSuchMethod));
    assert_eq!(router.dispatcher_v2("task::stream::balance::enable"), Err(NoSuchMethod));
    assert_eq!(router.dispatcher_v2("gui_storage::task::withdraw::init"), Err(NoSuchMethod));
    assert_eq!(router.dispatcher_v2("experimental::task::withdraw::init"), Err(NoSuchMethod));
    assert_eq!(router.dispatcher_v2("lightning::task::withdraw::init"), Err(NoSuchMethod));
    assert_eq!(router.dispatcher_v2("task::task::withdraw::init"), Err(NoSuchMethod));
    assert_eq!(
        router.dispatcher_v2("stream::orderbook::enable"),
        Ok(Handler::Stream(StreamMethod::OrderbookEnable))
    );
}

#[test]
fn stream_methods() {
    let router = Router::new(server());
    assert_eq!(
        router.dispatcher_v2("stream::balance::enable"),
        Ok(Handler::Stream(StreamMethod::BalanceEnable))
    );
    assert_eq!(router.dispatcher_v2("stream::disable"), Ok(Handler::Stream(StreamMethod::Disable)));
    assert_eq!(
        router.rpc_streaming_dispatcher("heartbeat::enable"),
        Ok(Handler::Stream(StreamMethod::HeartbeatEnable))
    );
    assert_eq!(router.rpc_streaming_dispatcher("stream::disable"), Err(NoSuchMethod));
}

#[test]
fn gui_storage_methods() {
    let router = Router::new(server());
    assert_eq!(
        router.dispatcher_v2("gui_storage::add_account"),
        Ok(Handler::GuiStorage(GuiStorageMethod::AddAccount))
    );
    assert_eq!(
        router.gui_storage_dispatcher("set_account_name"),
        Ok(Handler::GuiStorage(GuiStorageMethod::SetAccountName))
    );
}

#[test]
fn staking_methods_and_queries() {
    let router = Router::new(server());
    assert_eq!(
        router.dispatcher_v2("experimental::staking::delegate"),
        Ok(Handler::Staking(StakingMethod::Delegate))
    );
    assert_eq!(
        router.dispatcher_v2("experimental::staking::claim_rewards"),
        Ok(Handler::Staking(StakingMethod::ClaimRewards))
    );
    assert_eq!(
        router.dispatcher_v2("experimental::staking::query::validators"),
        Ok(Handler::StakingQuery(StakingQueryMethod::Validators))
    );
    assert_eq!(
        router.staking_dispatcher("query::delegations"),
        Ok(Handler::StakingQuery(StakingQueryMethod::Delegations))
    );
    assert_eq!(router.staking_dispatcher("validators"), Err(NoSuchMethod));
    assert_eq!(
        router.experimental_rpcs_dispatcher("staking::undelegate"),
        Ok(Handler::Staking(StakingMethod::Undelegate))
    );
    assert_eq!(router.experimental_rpcs_dispatcher("undelegate"), Err(NoSuchMethod));
}

#[test]
fn lightning_exists_only_where_it_is_included() {
    let with = Router::new(server());
    let without = Router::new(browser());
    assert_eq!(
        with.dispatcher_v2("lightning::channels::open_channel"),
        Ok(Handler::Lightning(LightningMethod::ChannelsOpenChannel))
    );
    assert_eq!(
        with.dispatcher_v2("lightning::payments::send_payment"),
        Ok(Handler::Lightning(LightningMethod::PaymentsSendPayment))
    );
    assert_eq!(without.dispatcher_v2("lightning::channels::open_channel"), Err(NoSuchMethod));
    assert_eq!(
        with.dispatcher_v2("task::enable_lightning::init"),
        Ok(Handler::Task(TaskOperation::EnableLightning, TaskPhase::Init))
    );
    assert_eq!(without.dispatcher_v2("task::enable_lightning::init"), Err(NoSuchMethod));
}

#[test]
fn metamask_and_sia_exist_only_where_they_are_included() {
    let server = Router::new(server());
    let browser = Router::new(browser());
    assert_eq!(
        browser.dispatcher_v2("task::connect_metamask::init"),
        Ok(Handler::Task(TaskOperation::ConnectMetamask, TaskPhase::Init))
    );
    assert_eq!(browser.dispatcher_v2("task::connect_metamask::user_action"), Err(NoSuchMethod));
    assert_eq!(server.dispatcher_v2("task::connect_metamask::init"), Err(NoSuchMethod));
    assert_eq!(server.dispatcher_v2("task::enable_sia::init"), Err(NoSuchMethod));
    let sia = Router::new(Capabilities { lightning: true, metamask: false, sia: true });
    assert_eq!(
        sia.dispatcher_v2("task::enable_sia::status"),
        Ok(Handler::Task(TaskOperation::EnableSia, TaskPhase::Status))
    );
    assert_eq!(sia.dispatcher_v2("task::enable_sia::cancel"), Err(NoSuchMethod));
    assert_eq!(sia.caps(), Capabilities { lightning: true, metamask: false, sia: true });
}

#[test]
fn find_returns_the_first_line_of_a_name() {
    let table = vec![
        Entry { name: "a", handler: Handler::Rpc(RpcMethod::Withdraw) },
        Entry { name: "b", handler: Handler::Rpc(RpcMethod::Orderbook) },
        Entry { name: "a", handler: Handler::Rpc(RpcMethod::SignMessage) },
    ];
    assert_eq!(find(&table, "a"), Ok(Handler::Rpc(RpcMethod::Withdraw)));
    assert_eq!(find(&table, "b"), Ok(Handler::Rpc(RpcMethod::Orderbook)));
    assert_eq!(find(&table, "c"), Err(NoSuchMethod));
    assert_eq!(find(&Vec::new(), "a"), Err(NoSuchMethod));
}

#[test]
fn strip_prefix_removes_only_a_leading_prefix() {
    assert_eq!(strip_prefix("task::withdraw::init", "task::"), Some("withdraw::init"));
    assert_eq!(strip_prefix("task::", "task::"), Some(""));
    assert_eq!(strip_prefix("task:", "task::"), None);
    assert_eq!(strip_prefix("xtask::a", "task::"), None);
    assert_eq!(strip_prefix("a::task::b", "task::"), None);
    assert_eq!(strip_prefix("anything", ""), Some("anything"));
    assert_eq!(strip_prefix("", "task::"), None);
    assert_eq!(strip_prefix("héllo::wörld", "héllo::"), Some("wörld"));
}

#[test]
fn str_eq_compares_texts() {
    assert!(str_eq("", ""));
    assert!(str_eq("withdraw", "withdraw"));
    assert!(!str_eq("withdraw", "withdraw "));
    assert!(!str_eq("withdraw", "withdrax"));
    assert!(!str_eq("a", ""));
    assert!(str_eq("wörld", "wörld"));
    assert!(!str_eq("wörld", "world"));
}
