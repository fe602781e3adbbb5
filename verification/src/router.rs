//! The method router: from a method name to the handler that serves it.
//!
//! A method name is a sequence of segments separated by `::`. The router
//! tests the namespace prefixes in a fixed order; the first one that the
//! name starts with takes the rest of the name to its own table, and a name
//! under no namespace is looked up in the flat top-level table.

use vstd::prelude::*;
use crate::text::{after_prefix, str_eq, strip_prefix};

verus! {

/// The phase of a long-running task that a method addresses.
#[derive(Clone, Copy, Debug, PartialEq, Eq, Structural)]
pub enum TaskPhase {
    Init,
    Status,
    Cancel,
    UserAction,
}

/// The handlers of the top-level methods.
#[derive(Clone, Copy, Debug, PartialEq, Eq, Structural)]
pub enum RpcMethod {
    AccountBalance,
    ActiveSwaps,
    AddNodeToVersionStat,
    ApproveToken,
    GetTokenAllowance,
    BestOrders,
    ClearNftDb,
    EnableBchWithTokens,
    EnableSlp,
    EnableEthWithTokens,
    EnableErc20,
    EnableTendermintWithAssets,
    EnableTendermintToken,
    GetCurrentMtp,
    GetEnabledCoins,
    GetLockedAmount,
    GetMnemonic,
    GetMyAddress,
    GetNewAddress,
    GetNftList,
    GetNftMetadata,
    GetNftTransfers,
    GetPublicKey,
    GetPublicKeyHash,
    GetRawTransaction,
    GetSharedDbId,
    GetTokenInfo,
    GetWalletNames,
    MaxMakerVol,
    MyRecentSwaps,
    MySwapStatus,
    MyTxHistory,
    Orderbook,
    RecreateSwapData,
    RefreshNftMetadata,
    RemoveNodeFromVersionStat,
    SignMessage,
    SignRawTransaction,
    StartSimpleMarketMakerBot,
    StartVersionStatCollection,
    StopSimpleMarketMakerBot,
    StopVersionStatCollection,
    TradePreimage,
    TrezorConnectionStatus,
    UpdateNft,
    ChangeMnemonicPassword,
    UpdateVersionStatCollection,
    VerifyMessage,
    Withdraw,
    IbcChains,
    IbcTransferChannels,
    PeerConnectionHealthcheck,
    WithdrawNft,
    GetEthEstimatedFeePerGas,
    GetSwapTransactionFeePolicy,
    SetSwapTransactionFeePolicy,
    SendAskedData,
    ZCoinTxHistory,
    OneInchV60ClassicSwapContract,
    OneInchV60ClassicSwapQuote,
    OneInchV60ClassicSwapCreate,
    OneInchV60ClassicSwapLiquiditySources,
    OneInchV60ClassicSwapTokens,
}

/// The handlers of the `stream::` namespace.
#[derive(Clone, Copy, Debug, PartialEq, Eq, Structural)]
pub enum StreamMethod {
    BalanceEnable,
    NetworkEnable,
    HeartbeatEnable,
    FeeEstimatorEnable,
    SwapStatusEnable,
    OrderStatusEnable,
    TxHistoryEnable,
    OrderbookEnable,
    Disable,
}

/// The operations that run as long-running tasks.
#[derive(Clone, Copy, Debug, PartialEq, Eq, Structural)]
pub enum TaskOperation {
    AccountBalance,
    CreateNewAccount,
    EnableBch,
    EnableQtum,
    EnableUtxo,
    EnableEth,
    EnableErc20,
    EnableTendermint,
    GetNewAddress,
    ScanForNewAddresses,
    InitTrezor,
    Withdraw,
    EnableSia,
    EnableZCoin,
    EnableLightning,
    ConnectMetamask,
}

/// The handlers of the `gui_storage::` namespace.
#[derive(Clone, Copy, Debug, PartialEq, Eq, Structural)]
pub enum GuiStorageMethod {
    ActivateCoins,
    AddAccount,
    DeactivateCoins,
    DeleteAccount,
    EnableAccount,
    GetAccounts,
    GetAccountCoins,
    GetEnabledAccount,
    SetAccountBalance,
    SetAccountDescription,
    SetAccountName,
}

/// The handlers of the `lightning::` namespace.
#[derive(Clone, Copy, Debug, PartialEq, Eq, Structural)]
pub enum LightningMethod {
    ChannelsCloseChannel,
    ChannelsGetChannelDetails,
    ChannelsGetClaimableBalances,
    ChannelsListClosedChannelsByFilter,
    ChannelsListOpenChannelsByFilter,
    ChannelsOpenChannel,
    ChannelsUpdateChannel,
    NodesAddTrustedNode,
    NodesConnectToNode,
    NodesListTrustedNodes,
    NodesRemoveTrustedNode,
    PaymentsGenerateInvoice,
    PaymentsGetPaymentDetails,
    PaymentsListPaymentsByFilter,
    PaymentsSendPayment,
}

/// The handlers of the `experimental::staking::` namespace.
#[derive(Clone, Copy, Debug, PartialEq, Eq, Structural)]
pub enum StakingMethod {
    ClaimRewards,
    Delegate,
    Undelegate,
}

/// The handlers of the `experimental::staking::query::` namespace.
#[derive(Clone, Copy, Debug, PartialEq, Eq, Structural)]
pub enum StakingQueryMethod {
    Delegations,
    OngoingUndelegations,
    Validators,
}

/// The handler that a method name resolves to.
#[derive(Clone, Copy, Debug, PartialEq, Eq, Structural)]
pub enum Handler {
    Rpc(RpcMethod),
    Stream(StreamMethod),
    Task(TaskOperation, TaskPhase),
    GuiStorage(GuiStorageMethod),
    Lightning(LightningMethod),
    Staking(StakingMethod),
    StakingQuery(StakingQueryMethod),
}

/// No namespace and no table holds the method.
#[derive(Clone, Copy, Debug, PartialEq, Eq, Structural)]
pub struct NoSuchMethod;

/// The namespaces that a deployment may or may not include.
#[derive(Clone, Copy, Debug, PartialEq, Eq, Structural)]
pub struct Capabilities {
    /// The `lightning::` namespace and the Lightning activation task.
    pub lightning: bool,
    /// The MetaMask connection task.
    pub metamask: bool,
    /// The Sia activation task.
    pub sia: bool,
}

/// One line of a routing table, as the contracts see it.
pub struct Route {
    pub name: Seq<char>,
    pub handler: Handler,
}

/// One line of a routing table.
#[derive(Clone, Copy, Debug)]
pub struct Entry {
    pub name: &'static str,
    pub handler: Handler,
}

impl View for Entry {
    type V = Route;

    open spec fn view(&self) -> Route {
        Route { name: self.name@, handler: self.handler }
    }
}

/// The lines of a table, as the contracts see them.
pub open spec fn routes_of(table: Seq<Entry>) -> Seq<Route> {
    table.map_values(|e: Entry| e@)
}

/// The handler of the first line of `table` whose name is `key`.
pub open spec fn lookup(table: Seq<Route>, key: Seq<char>) -> Option<Handler>
    decreases table.len(),
{
    if table.len() == 0 {
        None
    } else if table[0].name == key {
        Some(table[0].handler)
    } else {
        lookup(table.drop_first(), key)
    }
}

/// The flat table of top-level methods.
pub open spec fn top_level_routes() -> Seq<Route> {
    seq![
        Route { name: "account_balance"@, handler: Handler::Rpc(RpcMethod::AccountBalance) },
        Route { name: "active_swaps"@, handler: Handler::Rpc(RpcMethod::ActiveSwaps) },
        Route {
            name: "add_node_to_version_stat"@,
            handler: Handler::Rpc(RpcMethod::AddNodeToVersionStat),
        },
        Route { name: "approve_token"@, handler: Handler::Rpc(RpcMethod::ApproveToken) },
        Route {
            name: "get_token_allowance"@,
            handler: Handler::Rpc(RpcMethod::GetTokenAllowance),
        },
        Route { name: "best_orders"@, handler: Handler::Rpc(RpcMethod::BestOrders) },
        Route { name: "clear_nft_db"@, handler: Handler::Rpc(RpcMethod::ClearNftDb) },
        Route {
            name: "enable_bch_with_tokens"@,
            handler: Handler::Rpc(RpcMethod::EnableBchWithTokens),
        },
        Route { name: "enable_slp"@, handler: Handler::Rpc(RpcMethod::EnableSlp) },
        Route {
            name: "enable_eth_with_tokens"@,
            handler: Handler::Rpc(RpcMethod::EnableEthWithTokens),
        },
        Route { name: "enable_erc20"@, handler: Handler::Rpc(RpcMethod::EnableErc20) },
        Route { name: "enable_nft"@, handler: Handler::Rpc(RpcMethod::EnableErc20) },
        Route {
            name: "enable_tendermint_with_assets"@,
            handler: Handler::Rpc(RpcMethod::EnableTendermintWithAssets),
        },
        Route {
            name: "enable_tendermint_token"@,
            handler: Handler::Rpc(RpcMethod::EnableTendermintToken),
        },
        Route { name: "get_current_mtp"@, handler: Handler::Rpc(RpcMethod::GetCurrentMtp) },
        Route { name: "get_enabled_coins"@, handler: Handler::Rpc(RpcMethod::GetEnabledCoins) },
        Route { name: "get_locked_amount"@, handler: Handler::Rpc(RpcMethod::GetLockedAmount) },
        Route { name: "get_mnemonic"@, handler: Handler::Rpc(RpcMethod::GetMnemonic) },
        Route { name: "get_my_address"@, handler: Handler::Rpc(RpcMethod::GetMyAddress) },
        Route { name: "get_new_address"@, handler: Handler::Rpc(RpcMethod::GetNewAddress) },
        Route { name: "get_nft_list"@, handler: Handler::Rpc(RpcMethod::GetNftList) },
        Route { name: "get_nft_metadata"@, handler: Handler::Rpc(RpcMethod::GetNftMetadata) },
        Route { name: "get_nft_transfers"@, handler: Handler::Rpc(RpcMethod::GetNftTransfers) },
        Route { name: "get_public_key"@, handler: Handler::Rpc(RpcMethod::GetPublicKey) },
        Route { name: "get_public_key_hash"@, handler: Handler::Rpc(RpcMethod::GetPublicKeyHash) },
        Route {
            name: "get_raw_transaction"@,
            handler: Handler::Rpc(RpcMethod::GetRawTransaction),
        },
        Route { name: "get_shared_db_id"@, handler: Handler::Rpc(RpcMethod::GetSharedDbId) },
        Route { name: "get_token_info"@, handler: Handler::Rpc(RpcMethod::GetTokenInfo) },
        Route { name: "get_wallet_names"@, handler: Handler::Rpc(RpcMethod::GetWalletNames) },
        Route { name: "max_maker_vol"@, handler: Handler::Rpc(RpcMethod::MaxMakerVol) },
        Route { name: "my_recent_swaps"@, handler: Handler::Rpc(RpcMethod::MyRecentSwaps) },
        Route { name: "my_swap_status"@, handler: Handler::Rpc(RpcMethod::MySwapStatus) },
        Route { name: "my_tx_history"@, handler: Handler::Rpc(RpcMethod::MyTxHistory) },
        Route { name: "orderbook"@, handler: Handler::Rpc(RpcMethod::Orderbook) },
        Route { name: "recreate_swap_data"@, handler: Handler::Rpc(RpcMethod::RecreateSwapData) },
        Route {
            name: "refresh_nft_metadata"@,
            handler: Handler::Rpc(RpcMethod::RefreshNftMetadata),
        },
        Route {
            name: "remove_node_from_version_stat"@,
            handler: Handler::Rpc(RpcMethod::RemoveNodeFromVersionStat),
        },
        Route { name: "sign_message"@, handler: Handler::Rpc(RpcMethod::SignMessage) },
        Route {
            name: "sign_raw_transaction"@,
            handler: Handler::Rpc(RpcMethod::SignRawTransaction),
        },
        Route {
            name: "start_simple_market_maker_bot"@,
            handler: Handler::Rpc(RpcMethod::StartSimpleMarketMakerBot),
        },
        Route {
            name: "start_version_stat_collection"@,
            handler: Handler::Rpc(RpcMethod::StartVersionStatCollection),
        },
        Route {
            name: "stop_simple_market_maker_bot"@,
            handler: Handler::Rpc(RpcMethod::StopSimpleMarketMakerBot),
        },
        Route {
            name: "stop_version_stat_collection"@,
            handler: Handler::Rpc(RpcMethod::StopVersionStatCollection),
        },
        Route { name: "trade_preimage"@, handler: Handler::Rpc(RpcMethod::TradePreimage) },
        Route {
            name: "trezor_connection_status"@,
            handler: Handler::Rpc(RpcMethod::TrezorConnectionStatus),
        },
        Route { name: "update_nft"@, handler: Handler::Rpc(RpcMethod::UpdateNft) },
        Route {
            name: "change_mnemonic_password"@,
            handler: Handler::Rpc(RpcMethod::ChangeMnemonicPassword),
        },
        Route {
            name: "update_version_stat_collection"@,
            handler: Handler::Rpc(RpcMethod::UpdateVersionStatCollection),
        },
        Route { name: "verify_message"@, handler: Handler::Rpc(RpcMethod::VerifyMessage) },
        Route { name: "withdraw"@, handler: Handler::Rpc(RpcMethod::Withdraw) },
        Route { name: "ibc_chains"@, handler: Handler::Rpc(RpcMethod::IbcChains) },
        Route {
            name: "ibc_transfer_channels"@,
            handler: Handler::Rpc(RpcMethod::IbcTransferChannels),
        },
        Route {
            name: "peer_connection_healthcheck"@,
            handler: Handler::Rpc(RpcMethod::PeerConnectionHealthcheck),
        },
        Route { name: "withdraw_nft"@, handler: Handler::Rpc(RpcMethod::WithdrawNft) },
        Route {
            name: "get_eth_estimated_fee_per_gas"@,
            handler: Handler::Rpc(RpcMethod::GetEthEstimatedFeePerGas),
        },
        Route {
            name: "get_swap_transaction_fee_policy"@,
            handler: Handler::Rpc(RpcMethod::GetSwapTransactionFeePolicy),
        },
        Route {
            name: "set_swap_transaction_fee_policy"@,
            handler: Handler::Rpc(RpcMethod::SetSwapTransactionFeePolicy),
        },
        Route { name: "send_asked_data"@, handler: Handler::Rpc(RpcMethod::SendAskedData) },
        Route { name: "z_coin_tx_history"@, handler: Handler::Rpc(RpcMethod::ZCoinTxHistory) },
        Route {
            name: "1inch_v6_0_classic_swap_contract"@,
            handler: Handler::Rpc(RpcMethod::OneInchV60ClassicSwapContract),
        },
        Route {
            name: "1inch_v6_0_classic_swap_quote"@,
            handler: Handler::Rpc(RpcMethod::OneInchV60ClassicSwapQuote),
        },
        Route {
            name: "1inch_v6_0_classic_swap_create"@,
            handler: Handler::Rpc(RpcMethod::OneInchV60ClassicSwapCreate),
        },
        Route {
            name: "1inch_v6_0_classic_swap_liquidity_sources"@,
            handler: Handler::Rpc(RpcMethod::OneInchV60ClassicSwapLiquiditySources),
        },
        Route {
            name: "1inch_v6_0_classic_swap_tokens"@,
            handler: Handler::Rpc(RpcMethod::OneInchV60ClassicSwapTokens),
        },
    ]
}

/// The methods of the `stream::` namespace.
pub open spec fn stream_routes() -> Seq<Route> {
    seq![
        Route { name: "balance::enable"@, handler: Handler::Stream(StreamMethod::BalanceEnable) },
        Route { name: "network::enable"@, handler: Handler::Stream(StreamMethod::NetworkEnable) },
        Route {
            name: "heartbeat::enable"@,
            handler: Handler::Stream(StreamMethod::HeartbeatEnable),
        },
        Route {
            name: "fee_estimator::enable"@,
            handler: Handler::Stream(StreamMethod::FeeEstimatorEnable),
        },
        Route {
            name: "swap_status::enable"@,
            handler: Handler::Stream(StreamMethod::SwapStatusEnable),
        },
        Route {
            name: "order_status::enable"@,
            handler: Handler::Stream(StreamMethod::OrderStatusEnable),
        },
        Route {
            name: "tx_history::enable"@,
            handler: Handler::Stream(StreamMethod::TxHistoryEnable),
        },
        Route {
            name: "orderbook::enable"@,
            handler: Handler::Stream(StreamMethod::OrderbookEnable),
        },
        Route { name: "disable"@, handler: Handler::Stream(StreamMethod::Disable) },
    ]
}

/// The task methods that every deployment has.
pub open spec fn common_task_routes() -> Seq<Route> {
    seq![
        Route {
            name: "account_balance::cancel"@,
            handler: Handler::Task(TaskOperation::AccountBalance, TaskPhase::Cancel),
        },
        Route {
            name: "account_balance::init"@,
            handler: Handler::Task(TaskOperation::AccountBalance, TaskPhase::Init),
        },
        Route {
            name: "account_balance::status"@,
            handler: Handler::Task(TaskOperation::AccountBalance, TaskPhase::Status),
        },
        Route {
            name: "create_new_account::cancel"@,
            handler: Handler::Task(TaskOperation::CreateNewAccount, TaskPhase::Cancel),
        },
        Route {
            name: "create_new_account::init"@,
            handler: Handler::Task(TaskOperation::CreateNewAccount, TaskPhase::Init),
        },
        Route {
            name: "create_new_account::status"@,
            handler: Handler::Task(TaskOperation::CreateNewAccount, TaskPhase::Status),
        },
        Route {
            name: "create_new_account::user_action"@,
            handler: Handler::Task(TaskOperation::CreateNewAccount, TaskPhase::UserAction),
        },
        Route {
            name: "enable_bch::cancel"@,
            handler: Handler::Task(TaskOperation::EnableBch, TaskPhase::Cancel),
        },
        Route {
            name: "enable_bch::init"@,
            handler: Handler::Task(TaskOperation::EnableBch, TaskPhase::Init),
        },
        Route {
            name: "enable_bch::status"@,
            handler: Handler::Task(TaskOperation::EnableBch, TaskPhase::Status),
        },
        Route {
            name: "enable_bch::user_action"@,
            handler: Handler::Task(TaskOperation::EnableBch, TaskPhase::UserAction),
        },
        Route {
            name: "enable_qtum::cancel"@,
            handler: Handler::Task(TaskOperation::EnableQtum, TaskPhase::Cancel),
        },
        Route {
            name: "enable_qtum::init"@,
            handler: Handler::Task(TaskOperation::EnableQtum, TaskPhase::Init),
        },
        Route {
            name: "enable_qtum::status"@,
            handler: Handler::Task(TaskOperation::EnableQtum, TaskPhase::Status),
        },
        Route {
            name: "enable_qtum::user_action"@,
            handler: Handler::Task(TaskOperation::EnableQtum, TaskPhase::UserAction),
        },
        Route {
            name: "enable_utxo::cancel"@,
            handler: Handler::Task(TaskOperation::EnableUtxo, TaskPhase::Cancel),
        },
        Route {
            name: "enable_utxo::init"@,
            handler: Handler::Task(TaskOperation::EnableUtxo, TaskPhase::Init),
        },
        Route {
            name: "enable_utxo::status"@,
            handler: Handler::Task(TaskOperation::EnableUtxo, TaskPhase::Status),
        },
        Route {
            name: "enable_utxo::user_action"@,
            handler: Handler::Task(TaskOperation::EnableUtxo, TaskPhase::UserAction),
        },
        Route {
            name: "enable_eth::cancel"@,
            handler: Handler::Task(TaskOperation::EnableEth, TaskPhase::Cancel),
        },
        Route {
            name: "enable_eth::init"@,
            handler: Handler::Task(TaskOperation::EnableEth, TaskPhase::Init),
        },
        Route {
            name: "enable_eth::status"@,
            handler: Handler::Task(TaskOperation::EnableEth, TaskPhase::Status),
        },
        Route {
            name: "enable_eth::user_action"@,
            handler: Handler::Task(TaskOperation::EnableEth, TaskPhase::UserAction),
        },
        Route {
            name: "enable_erc20::cancel"@,
            handler: Handler::Task(TaskOperation::EnableErc20, TaskPhase::Cancel),
        },
        Route {
            name: "enable_erc20::init"@,
            handler: Handler::Task(TaskOperation::EnableErc20, TaskPhase::Init),
        },
        Route {
            name: "enable_erc20::status"@,
            handler: Handler::Task(TaskOperation::EnableErc20, TaskPhase::Status),
        },
        Route {
            name: "enable_erc20::user_action"@,
            handler: Handler::Task(TaskOperation::EnableErc20, TaskPhase::UserAction),
        },
        Route {
            name: "enable_tendermint::cancel"@,
            handler: Handler::Task(TaskOperation::EnableTendermint, TaskPhase::Cancel),
        },
        Route {
            name: "enable_tendermint::init"@,
            handler: Handler::Task(TaskOperation::EnableTendermint, TaskPhase::Init),
        },
        Route {
            name: "enable_tendermint::status"@,
            handler: Handler::Task(TaskOperation::EnableTendermint, TaskPhase::Status),
        },
        Route {
            name: "enable_tendermint::user_action"@,
            handler: Handler::Task(TaskOperation::EnableTendermint, TaskPhase::UserAction),
        },
        Route {
            name: "get_new_address::cancel"@,
            handler: Handler::Task(TaskOperation::GetNewAddress, TaskPhase::Cancel),
        },
        Route {
            name: "get_new_address::init"@,
            handler: Handler::Task(TaskOperation::GetNewAddress, TaskPhase::Init),
        },
        Route {
            name: "get_new_address::status"@,
            handler: Handler::Task(TaskOperation::GetNewAddress, TaskPhase::Status),
        },
        Route {
            name: "get_new_address::user_action"@,
            handler: Handler::Task(TaskOperation::GetNewAddress, TaskPhase::UserAction),
        },
        Route {
            name: "scan_for_new_addresses::cancel"@,
            handler: Handler::Task(TaskOperation::ScanForNewAddresses, TaskPhase::Cancel),
        },
        Route {
            name: "scan_for_new_addresses::init"@,
            handler: Handler::Task(TaskOperation::ScanForNewAddresses, TaskPhase::Init),
        },
        Route {
            name: "scan_for_new_addresses::status"@,
            handler: Handler::Task(TaskOperation::ScanForNewAddresses, TaskPhase::Status),
        },
        Route {
            name: "init_trezor::cancel"@,
            handler: Handler::Task(TaskOperation::InitTrezor, TaskPhase::Cancel),
        },
        Route {
            name: "init_trezor::init"@,
            handler: Handler::Task(TaskOperation::InitTrezor, TaskPhase::Init),
        },
        Route {
            name: "init_trezor::status"@,
            handler: Handler::Task(TaskOperation::InitTrezor, TaskPhase::Status),
        },
        Route {
            name: "init_trezor::user_action"@,
            handler: Handler::Task(TaskOperation::InitTrezor, TaskPhase::UserAction),
        },
        Route {
            name: "withdraw::cancel"@,
            handler: Handler::Task(TaskOperation::Withdraw, TaskPhase::Cancel),
        },
        Route {
            name: "withdraw::init"@,
            handler: Handler::Task(TaskOperation::Withdraw, TaskPhase::Init),
        },
        Route {
            name: "withdraw::status"@,
            handler: Handler::Task(TaskOperation::Withdraw, TaskPhase::Status),
        },
        Route {
            name: "withdraw::user_action"@,
            handler: Handler::Task(TaskOperation::Withdraw, TaskPhase::UserAction),
        },
        Route {
            name: "enable_z_coin::init"@,
            handler: Handler::Task(TaskOperation::EnableZCoin, TaskPhase::Init),
        },
        Route {
            name: "enable_z_coin::cancel"@,
            handler: Handler::Task(TaskOperation::EnableZCoin, TaskPhase::Cancel),
        },
        Route {
            name: "enable_z_coin::status"@,
            handler: Handler::Task(TaskOperation::EnableZCoin, TaskPhase::Status),
        },
        Route {
            name: "enable_z_coin::user_action"@,
            handler: Handler::Task(TaskOperation::EnableZCoin, TaskPhase::UserAction),
        },
    ]
}

/// The task methods of deployments with Sia support.
pub open spec fn sia_task_routes() -> Seq<Route> {
    seq![
        Route {
            name: "enable_sia::init"@,
            handler: Handler::Task(TaskOperation::EnableSia, TaskPhase::Init),
        },
        Route {
            name: "enable_sia::status"@,
            handler: Handler::Task(TaskOperation::EnableSia, TaskPhase::Status),
        },
    ]
}

/// The task methods of deployments with Lightning support.
pub open spec fn lightning_task_routes() -> Seq<Route> {
    seq![
        Route {
            name: "enable_lightning::cancel"@,
            handler: Handler::Task(TaskOperation::EnableLightning, TaskPhase::Cancel),
        },
        Route {
            name: "enable_lightning::init"@,
            handler: Handler::Task(TaskOperation::EnableLightning, TaskPhase::Init),
        },
        Route {
            name: "enable_lightning::status"@,
            handler: Handler::Task(TaskOperation::EnableLightning, TaskPhase::Status),
        },
        Route {
            name: "enable_lightning::user_action"@,
            handler: Handler::Task(TaskOperation::EnableLightning, TaskPhase::UserAction),
        },
    ]
}

/// The task methods of deployments with MetaMask support.
pub open spec fn metamask_task_routes() -> Seq<Route> {
    seq![
        Route {
            name: "connect_metamask::cancel"@,
            handler: Handler::Task(TaskOperation::ConnectMetamask, TaskPhase::Cancel),
        },
        Route {
            name: "connect_metamask::init"@,
            handler: Handler::Task(TaskOperation::ConnectMetamask, TaskPhase::Init),
        },
        Route {
            name: "connect_metamask::status"@,
            handler: Handler::Task(TaskOperation::ConnectMetamask, TaskPhase::Status),
        },
    ]
}

/// The methods of the `gui_storage::` namespace.
pub open spec fn gui_storage_routes() -> Seq<Route> {
    seq![
        Route {
            name: "activate_coins"@,
            handler: Handler::GuiStorage(GuiStorageMethod::ActivateCoins),
        },
        Route { name: "add_account"@, handler: Handler::GuiStorage(GuiStorageMethod::AddAccount) },
        Route {
            name: "deactivate_coins"@,
            handler: Handler::GuiStorage(GuiStorageMethod::DeactivateCoins),
        },
        Route {
            name: "delete_account"@,
            handler: Handler::GuiStorage(GuiStorageMethod::DeleteAccount),
        },
        Route {
            name: "enable_account"@,
            handler: Handler::GuiStorage(GuiStorageMethod::EnableAccount),
        },
        Route {
            name: "get_accounts"@,
            handler: Handler::GuiStorage(GuiStorageMethod::GetAccounts),
        },
        Route {
            name: "get_account_coins"@,
            handler: Handler::GuiStorage(GuiStorageMethod::GetAccountCoins),
        },
        Route {
            name: "get_enabled_account"@,
            handler: Handler::GuiStorage(GuiStorageMethod::GetEnabledAccount),
        },
        Route {
            name: "set_account_balance"@,
            handler: Handler::GuiStorage(GuiStorageMethod::SetAccountBalance),
        },
        Route {
            name: "set_account_description"@,
            handler: Handler::GuiStorage(GuiStorageMethod::SetAccountDescription),
        },
        Route {
            name: "set_account_name"@,
            handler: Handler::GuiStorage(GuiStorageMethod::SetAccountName),
        },
    ]
}

/// The methods of the `lightning::` namespace.
pub open spec fn lightning_routes() -> Seq<Route> {
    seq![
        Route {
            name: "channels::close_channel"@,
            handler: Handler::Lightning(LightningMethod::ChannelsCloseChannel),
        },
        Route {
            name: "channels::get_channel_details"@,
            handler: Handler::Lightning(LightningMethod::ChannelsGetChannelDetails),
        },
        Route {
            name: "channels::get_claimable_balances"@,
            handler: Handler::Lightning(LightningMethod::ChannelsGetClaimableBalances),
        },
        Route {
            name: "channels::list_closed_channels_by_filter"@,
            handler: Handler::Lightning(LightningMethod::ChannelsListClosedChannelsByFilter),
        },
        Route {
            name: "channels::list_open_channels_by_filter"@,
            handler: Handler::Lightning(LightningMethod::ChannelsListOpenChannelsByFilter),
        },
        Route {
            name: "channels::open_channel"@,
            handler: Handler::Lightning(LightningMethod::ChannelsOpenChannel),
        },
        Route {
            name: "channels::update_channel"@,
            handler: Handler::Lightning(LightningMethod::ChannelsUpdateChannel),
        },
        Route {
            name: "nodes::add_trusted_node"@,
            handler: Handler::Lightning(LightningMethod::NodesAddTrustedNode),
        },
        Route {
            name: "nodes::connect_to_node"@,
            handler: Handler::Lightning(LightningMethod::NodesConnectToNode),
        },
        Route {
            name: "nodes::list_trusted_nodes"@,
            handler: Handler::Lightning(LightningMethod::NodesListTrustedNodes),
        },
        Route {
            name: "nodes::remove_trusted_node"@,
            handler: Handler::Lightning(LightningMethod::NodesRemoveTrustedNode),
        },
        Route {
            name: "payments::generate_invoice"@,
            handler: Handler::Lightning(LightningMethod::PaymentsGenerateInvoice),
        },
        Route {
            name: "payments::get_payment_details"@,
            handler: Handler::Lightning(LightningMethod::PaymentsGetPaymentDetails),
        },
        Route {
            name: "payments::list_payments_by_filter"@,
            handler: Handler::Lightning(LightningMethod::PaymentsListPaymentsByFilter),
        },
        Route {
            name: "payments::send_payment"@,
            handler: Handler::Lightning(LightningMethod::PaymentsSendPayment),
        },
    ]
}

/// The methods of the `experimental::staking::` namespace.
pub open spec fn staking_routes() -> Seq<Route> {
    seq![
        Route { name: "claim_rewards"@, handler: Handler::Staking(StakingMethod::ClaimRewards) },
        Route { name: "delegate"@, handler: Handler::Staking(StakingMethod::Delegate) },
        Route { name: "undelegate"@, handler: Handler::Staking(StakingMethod::Undelegate) },
    ]
}

/// The methods of the `experimental::staking::query::` namespace.
pub open spec fn staking_query_routes() -> Seq<Route> {
    seq![
        Route {
            name: "delegations"@,
            handler: Handler::StakingQuery(StakingQueryMethod::Delegations),
        },
        Route {
            name: "ongoing_undelegations"@,
            handler: Handler::StakingQuery(StakingQueryMethod::OngoingUndelegations),
        },
        Route {
            name: "validators"@,
            handler: Handler::StakingQuery(StakingQueryMethod::Validators),
        },
    ]
}

/// The task methods of a deployment with the capabilities `caps`.
pub open spec fn task_routes(caps: Capabilities) -> Seq<Route> {
    common_task_routes() + (if caps.sia {
        sia_task_routes()
    } else {
        Seq::empty()
    }) + (if caps.lightning {
        lightning_task_routes()
    } else {
        Seq::empty()
    }) + (if caps.metamask {
        metamask_task_routes()
    } else {
        Seq::empty()
    })
}

/// The handler of a name inside `experimental::staking::`.
pub open spec fn staking_route(method: Seq<char>) -> Option<Handler> {
    match after_prefix(method, "query::"@) {
        Some(rest) => lookup(staking_query_routes(), rest),
        None => lookup(staking_routes(), method),
    }
}

/// The handler of a name inside `experimental::`.
pub open spec fn experimental_route(method: Seq<char>) -> Option<Handler> {
    match after_prefix(method, "staking::"@) {
        Some(rest) => staking_route(rest),
        None => None,
    }
}

/// The handler that a deployment with the capabilities `caps` has for
/// `method`. The namespaces are tried in this order: `stream::`, `task::`,
/// `gui_storage::`, `experimental::`, then `lightning::` where the deployment
/// includes it. The first prefix that matches decides; the top-level table
/// is consulted only when none does.
pub open spec fn route_v2(caps: Capabilities, method: Seq<char>) -> Option<Handler> {
    if after_prefix(method, "stream::"@) is Some {
        lookup(stream_routes(), after_prefix(method, "stream::"@)->0)
    } else if after_prefix(method, "task::"@) is Some {
        lookup(task_routes(caps), after_prefix(method, "task::"@)->0)
    } else if after_prefix(method, "gui_storage::"@) is Some {
        lookup(gui_storage_routes(), after_prefix(method, "gui_storage::"@)->0)
    } else if after_prefix(method, "experimental::"@) is Some {
        experimental_route(after_prefix(method, "experimental::"@)->0)
    } else if caps.lightning && after_prefix(method, "lightning::"@) is Some {
        lookup(lightning_routes(), after_prefix(method, "lightning::"@)->0)
    } else {
        lookup(top_level_routes(), method)
    }
}

/// What the router answers for a lookup result.
pub open spec fn found(r: Option<Handler>) -> Result<Handler, NoSuchMethod> {
    match r {
        Some(h) => Ok(h),
        None => Err(NoSuchMethod),
    }
}

/// Looks `key` up in `table`.
pub fn find(table: &Vec<Entry>, key: &str) -> (r: Result<Handler, NoSuchMethod>)
    ensures
        r == found(lookup(routes_of(table@), key@)),
{
    let mut i: usize = 0;
    assert(routes_of(table@).skip(0) =~= routes_of(table@));
    while i < table.len()
        invariant
            i <= table.len(),
            lookup(routes_of(table@), key@) == lookup(routes_of(table@).skip(i as int), key@),
        decreases table.len() - i,
    {
        let ghost rest = routes_of(table@).skip(i as int);
        assert(rest[0] == table@[i as int]@);
        assert(rest.drop_first() =~= routes_of(table@).skip(i + 1));
        if str_eq(table[i].name, key) {
            return Ok(table[i].handler);
        }
        i += 1;
    }
    Err(NoSuchMethod)
}

fn top_level_table() -> (table: Vec<Entry>)
    ensures
        routes_of(table@) == top_level_routes(),
{
    let mut table: Vec<Entry> = Vec::new();
    table.push(
        Entry { name: "account_balance", handler: Handler::Rpc(RpcMethod::AccountBalance) },
    );
    table.push(Entry { name: "active_swaps", handler: Handler::Rpc(RpcMethod::ActiveSwaps) });
    table.push(
        Entry {
            name: "add_node_to_version_stat",
            handler: Handler::Rpc(RpcMethod::AddNodeToVersionStat),
        },
    );
    table.push(Entry { name: "approve_token", handler: Handler::Rpc(RpcMethod::ApproveToken) });
    table.push(
        Entry { name: "get_token_allowance", handler: Handler::Rpc(RpcMethod::GetTokenAllowance) },
    );
    table.push(Entry { name: "best_orders", handler: Handler::Rpc(RpcMethod::BestOrders) });
    table.push(Entry { name: "clear_nft_db", handler: Handler::Rpc(RpcMethod::ClearNftDb) });
    table.push(
        Entry {
            name: "enable_bch_with_tokens",
            handler: Handler::Rpc(RpcMethod::EnableBchWithTokens),
        },
    );
    table.push(Entry { name: "enable_slp", handler: Handler::Rpc(RpcMethod::EnableSlp) });
    table.push(
        Entry {
            name: "enable_eth_with_tokens",
            handler: Handler::Rpc(RpcMethod::EnableEthWithTokens),
        },
    );
    table.push(Entry { name: "enable_erc20", handler: Handler::Rpc(RpcMethod::EnableErc20) });
    table.push(Entry { name: "enable_nft", handler: Handler::Rpc(RpcMethod::EnableErc20) });
    table.push(
        Entry {
            name: "enable_tendermint_with_assets",
            handler: Handler::Rpc(RpcMethod::EnableTendermintWithAssets),
        },
    );
    table.push(
        Entry {
            name: "enable_tendermint_token",
            handler: Handler::Rpc(RpcMethod::EnableTendermintToken),
        },
    );
    table.push(Entry { name: "get_current_mtp", handler: Handler::Rpc(RpcMethod::GetCurrentMtp) });
    table.push(
        Entry { name: "get_enabled_coins", handler: Handler::Rpc(RpcMethod::GetEnabledCoins) },
    );
    table.push(
        Entry { name: "get_locked_amount", handler: Handler::Rpc(RpcMethod::GetLockedAmount) },
    );
    table.push(Entry { name: "get_mnemonic", handler: Handler::Rpc(RpcMethod::GetMnemonic) });
    table.push(Entry { name: "get_my_address", handler: Handler::Rpc(RpcMethod::GetMyAddress) });
    table.push(Entry { name: "get_new_address", handler: Handler::Rpc(RpcMethod::GetNewAddress) });
    table.push(Entry { name: "get_nft_list", handler: Handler::Rpc(RpcMethod::GetNftList) });
    table.push(
        Entry { name: "get_nft_metadata", handler: Handler::Rpc(RpcMethod::GetNftMetadata) },
    );
    table.push(
        Entry { name: "get_nft_transfers", handler: Handler::Rpc(RpcMethod::GetNftTransfers) },
    );
    table.push(Entry { name: "get_public_key", handler: Handler::Rpc(RpcMethod::GetPublicKey) });
    table.push(
        Entry { name: "get_public_key_hash", handler: Handler::Rpc(RpcMethod::GetPublicKeyHash) },
    );
    table.push(
        Entry { name: "get_raw_transaction", handler: Handler::Rpc(RpcMethod::GetRawTransaction) },
    );
    table.push(
        Entry { name: "get_shared_db_id", handler: Handler::Rpc(RpcMethod::GetSharedDbId) },
    );
    table.push(Entry { name: "get_token_info", handler: Handler::Rpc(RpcMethod::GetTokenInfo) });
    table.push(
        Entry { name: "get_wallet_names", handler: Handler::Rpc(RpcMethod::GetWalletNames) },
    );
    table.push(Entry { name: "max_maker_vol", handler: Handler::Rpc(RpcMethod::MaxMakerVol) });
    table.push(Entry { name: "my_recent_swaps", handler: Handler::Rpc(RpcMethod::MyRecentSwaps) });
    table.push(Entry { name: "my_swap_status", handler: Handler::Rpc(RpcMethod::MySwapStatus) });
    table.push(Entry { name: "my_tx_history", handler: Handler::Rpc(RpcMethod::MyTxHistory) });
    table.push(Entry { name: "orderbook", handler: Handler::Rpc(RpcMethod::Orderbook) });
    table.push(
        Entry { name: "recreate_swap_data", handler: Handler::Rpc(RpcMethod::RecreateSwapData) },
    );
    table.push(
        Entry {
            name: "refresh_nft_metadata",
            handler: Handler::Rpc(RpcMethod::RefreshNftMetadata),
        },
    );
    table.push(
        Entry {
            name: "remove_node_from_version_stat",
            handler: Handler::Rpc(RpcMethod::RemoveNodeFromVersionStat),
        },
    );
    table.push(Entry { name: "sign_message", handler: Handler::Rpc(RpcMethod::SignMessage) });
    table.push(
        Entry {
            name: "sign_raw_transaction",
            handler: Handler::Rpc(RpcMethod::SignRawTransaction),
        },
    );
    table.push(
        Entry {
            name: "start_simple_market_maker_bot",
            handler: Handler::Rpc(RpcMethod::StartSimpleMarketMakerBot),
        },
    );
    table.push(
        Entry {
            name: "start_version_stat_collection",
            handler: Handler::Rpc(RpcMethod::StartVersionStatCollection),
        },
    );
    table.push(
        Entry {
            name: "stop_simple_market_maker_bot",
            handler: Handler::Rpc(RpcMethod::StopSimpleMarketMakerBot),
        },
    );
    table.push(
        Entry {
            name: "stop_version_stat_collection",
            handler: Handler::Rpc(RpcMethod::StopVersionStatCollection),
        },
    );
    table.push(Entry { name: "trade_preimage", handler: Handler::Rpc(RpcMethod::TradePreimage) });
    table.push(
        Entry {
            name: "trezor_connection_status",
            handler: Handler::Rpc(RpcMethod::TrezorConnectionStatus),
        },
    );
    table.push(Entry { name: "update_nft", handler: Handler::Rpc(RpcMethod::UpdateNft) });
    table.push(
        Entry {
            name: "change_mnemonic_password",
            handler: Handler::Rpc(RpcMethod::ChangeMnemonicPassword),
        },
    );
    table.push(
        Entry {
            name: "update_version_stat_collection",
            handler: Handler::Rpc(RpcMethod::UpdateVersionStatCollection),
        },
    );
    table.push(Entry { name: "verify_message", handler: Handler::Rpc(RpcMethod::VerifyMessage) });
    table.push(Entry { name: "withdraw", handler: Handler::Rpc(RpcMethod::Withdraw) });
    table.push(Entry { name: "ibc_chains", handler: Handler::Rpc(RpcMethod::IbcChains) });
    table.push(
        Entry {
            name: "ibc_transfer_channels",
            handler: Handler::Rpc(RpcMethod::IbcTransferChannels),
        },
    );
    table.push(
        Entry {
            name: "peer_connection_healthcheck",
            handler: Handler::Rpc(RpcMethod::PeerConnectionHealthcheck),
        },
    );
    table.push(Entry { name: "withdraw_nft", handler: Handler::Rpc(RpcMethod::WithdrawNft) });
    table.push(
        Entry {
            name: "get_eth_estimated_fee_per_gas",
            handler: Handler::Rpc(RpcMethod::GetEthEstimatedFeePerGas),
        },
    );
    table.push(
        Entry {
            name: "get_swap_transaction_fee_policy",
            handler: Handler::Rpc(RpcMethod::GetSwapTransactionFeePolicy),
        },
    );
    table.push(
        Entry {
            name: "set_swap_transaction_fee_policy",
            handler: Handler::Rpc(RpcMethod::SetSwapTransactionFeePolicy),
        },
    );
    table.push(Entry { name: "send_asked_data", handler: Handler::Rpc(RpcMethod::SendAskedData) });
    table.push(
        Entry { name: "z_coin_tx_history", handler: Handler::Rpc(RpcMethod::ZCoinTxHistory) },
    );
    table.push(
        Entry {
            name: "1inch_v6_0_classic_swap_contract",
            handler: Handler::Rpc(RpcMethod::OneInchV60ClassicSwapContract),
        },
    );
    table.push(
        Entry {
            name: "1inch_v6_0_classic_swap_quote",
            handler: Handler::Rpc(RpcMethod::OneInchV60ClassicSwapQuote),
        },
    );
    table.push(
        Entry {
            name: "1inch_v6_0_classic_swap_create",
            handler: Handler::Rpc(RpcMethod::OneInchV60ClassicSwapCreate),
        },
    );
    table.push(
        Entry {
            name: "1inch_v6_0_classic_swap_liquidity_sources",
            handler: Handler::Rpc(RpcMethod::OneInchV60ClassicSwapLiquiditySources),
        },
    );
    table.push(
        Entry {
            name: "1inch_v6_0_classic_swap_tokens",
            handler: Handler::Rpc(RpcMethod::OneInchV60ClassicSwapTokens),
        },
    );
    assert(routes_of(table@) =~= top_level_routes());
    table
}

fn stream_table() -> (table: Vec<Entry>)
    ensures
        routes_of(table@) == stream_routes(),
{
    let mut table: Vec<Entry> = Vec::new();
    table.push(
        Entry { name: "balance::enable", handler: Handler::Stream(StreamMethod::BalanceEnable) },
    );
    table.push(
        Entry { name: "network::enable", handler: Handler::Stream(StreamMethod::NetworkEnable) },
    );
    table.push(
        Entry {
            name: "heartbeat::enable",
            handler: Handler::Stream(StreamMethod::HeartbeatEnable),
        },
    );
    table.push(
        Entry {
            name: "fee_estimator::enable",
            handler: Handler::Stream(StreamMethod::FeeEstimatorEnable),
        },
    );
    table.push(
        Entry {
            name: "swap_status::enable",
            handler: Handler::Stream(StreamMethod::SwapStatusEnable),
        },
    );
    table.push(
        Entry {
            name: "order_status::enable",
            handler: Handler::Stream(StreamMethod::OrderStatusEnable),
        },
    );
    table.push(
        Entry {
            name: "tx_history::enable",
            handler: Handler::Stream(StreamMethod::TxHistoryEnable),
        },
    );
    table.push(
        Entry {
            name: "orderbook::enable",
            handler: Handler::Stream(StreamMethod::OrderbookEnable),
        },
    );
    table.push(Entry { name: "disable", handler: Handler::Stream(StreamMethod::Disable) });
    assert(routes_of(table@) =~= stream_routes());
    table
}

fn common_task_table() -> (table: Vec<Entry>)
    ensures
        routes_of(table@) == common_task_routes(),
{
    let mut table: Vec<Entry> = Vec::new();
    table.push(
        Entry {
            name: "account_balance::cancel",
            handler: Handler::Task(TaskOperation::AccountBalance, TaskPhase::Cancel),
        },
    );
    table.push(
        Entry {
            name: "account_balance::init",
            handler: Handler::Task(TaskOperation::AccountBalance, TaskPhase::Init),
        },
    );
    table.push(
        Entry {
            name: "account_balance::status",
            handler: Handler::Task(TaskOperation::AccountBalance, TaskPhase::Status),
        },
    );
    table.push(
        Entry {
            name: "create_new_account::cancel",
            handler: Handler::Task(TaskOperation::CreateNewAccount, TaskPhase::Cancel),
        },
    );
    table.push(
        Entry {
            name: "create_new_account::init",
            handler: Handler::Task(TaskOperation::CreateNewAccount, TaskPhase::Init),
        },
    );
    table.push(
        Entry {
            name: "create_new_account::status",
            handler: Handler::Task(TaskOperation::CreateNewAccount, TaskPhase::Status),
        },
    );
    table.push(
        Entry {
            name: "create_new_account::user_action",
            handler: Handler::Task(TaskOperation::CreateNewAccount, TaskPhase::UserAction),
        },
    );
    table.push(
        Entry {
            name: "enable_bch::cancel",
            handler: Handler::Task(TaskOperation::EnableBch, TaskPhase::Cancel),
        },
    );
    table.push(
        Entry {
            name: "enable_bch::init",
            handler: Handler::Task(TaskOperation::EnableBch, TaskPhase::Init),
        },
    );
    table.push(
        Entry {
            name: "enable_bch::status",
            handler: Handler::Task(TaskOperation::EnableBch, TaskPhase::Status),
        },
    );
    table.push(
        Entry {
            name: "enable_bch::user_action",
            handler: Handler::Task(TaskOperation::EnableBch, TaskPhase::UserAction),
        },
    );
    table.push(
        Entry {
            name: "enable_qtum::cancel",
            handler: Handler::Task(TaskOperation::EnableQtum, TaskPhase::Cancel),
        },
    );
    table.push(
        Entry {
            name: "enable_qtum::init",
            handler: Handler::Task(TaskOperation::EnableQtum, TaskPhase::Init),
        },
    );
    table.push(
        Entry {
            name: "enable_qtum::status",
            handler: Handler::Task(TaskOperation::EnableQtum, TaskPhase::Status),
        },
    );
    table.push(
        Entry {
            name: "enable_qtum::user_action",
            handler: Handler::Task(TaskOperation::EnableQtum, TaskPhase::UserAction),
        },
    );
    table.push(
        Entry {
            name: "enable_utxo::cancel",
            handler: Handler::Task(TaskOperation::EnableUtxo, TaskPhase::Cancel),
        },
    );
    table.push(
        Entry {
            name: "enable_utxo::init",
            handler: Handler::Task(TaskOperation::EnableUtxo, TaskPhase::Init),
        },
    );
    table.push(
        Entry {
            name: "enable_utxo::status",
            handler: Handler::Task(TaskOperation::EnableUtxo, TaskPhase::Status),
        },
    );
    table.push(
        Entry {
            name: "enable_utxo::user_action",
            handler: Handler::Task(TaskOperation::EnableUtxo, TaskPhase::UserAction),
        },
    );
    table.push(
        Entry {
            name: "enable_eth::cancel",
            handler: Handler::Task(TaskOperation::EnableEth, TaskPhase::Cancel),
        },
    );
    table.push(
        Entry {
            name: "enable_eth::init",
            handler: Handler::Task(TaskOperation::EnableEth, TaskPhase::Init),
        },
    );
    table.push(
        Entry {
            name: "enable_eth::status",
            handler: Handler::Task(TaskOperation::EnableEth, TaskPhase::Status),
        },
    );
    table.push(
        Entry {
            name: "enable_eth::user_action",
            handler: Handler::Task(TaskOperation::EnableEth, TaskPhase::UserAction),
        },
    );
    table.push(
        Entry {
            name: "enable_erc20::cancel",
            handler: Handler::Task(TaskOperation::EnableErc20, TaskPhase::Cancel),
        },
    );
    table.push(
        Entry {
            name: "enable_erc20::init",
            handler: Handler::Task(TaskOperation::EnableErc20, TaskPhase::Init),
        },
    );
    table.push(
        Entry {
            name: "enable_erc20::status",
            handler: Handler::Task(TaskOperation::EnableErc20, TaskPhase::Status),
        },
    );
    table.push(
        Entry {
            name: "enable_erc20::user_action",
            handler: Handler::Task(TaskOperation::EnableErc20, TaskPhase::UserAction),
        },
    );
    table.push(
        Entry {
            name: "enable_tendermint::cancel",
            handler: Handler::Task(TaskOperation::EnableTendermint, TaskPhase::Cancel),
        },
    );
    table.push(
        Entry {
            name: "enable_tendermint::init",
            handler: Handler::Task(TaskOperation::EnableTendermint, TaskPhase::Init),
        },
    );
    table.push(
        Entry {
            name: "enable_tendermint::status",
            handler: Handler::Task(TaskOperation::EnableTendermint, TaskPhase::Status),
        },
    );
    table.push(
        Entry {
            name: "enable_tendermint::user_action",
            handler: Handler::Task(TaskOperation::EnableTendermint, TaskPhase::UserAction),
        },
    );
    table.push(
        Entry {
            name: "get_new_address::cancel",
            handler: Handler::Task(TaskOperation::GetNewAddress, TaskPhase::Cancel),
        },
    );
    table.push(
        Entry {
            name: "get_new_address::init",
            handler: Handler::Task(TaskOperation::GetNewAddress, TaskPhase::Init),
        },
    );
    table.push(
        Entry {
            name: "get_new_address::status",
            handler: Handler::Task(TaskOperation::GetNewAddress, TaskPhase::Status),
        },
    );
    table.push(
        Entry {
            name: "get_new_address::user_action",
            handler: Handler::Task(TaskOperation::GetNewAddress, TaskPhase::UserAction),
        },
    );
    table.push(
        Entry {
            name: "scan_for_new_addresses::cancel",
            handler: Handler::Task(TaskOperation::ScanForNewAddresses, TaskPhase::Cancel),
        },
    );
    table.push(
        Entry {
            name: "scan_for_new_addresses::init",
            handler: Handler::Task(TaskOperation::ScanForNewAddresses, TaskPhase::Init),
        },
    );
    table.push(
        Entry {
            name: "scan_for_new_addresses::status",
            handler: Handler::Task(TaskOperation::ScanForNewAddresses, TaskPhase::Status),
        },
    );
    table.push(
        Entry {
            name: "init_trezor::cancel",
            handler: Handler::Task(TaskOperation::InitTrezor, TaskPhase::Cancel),
        },
    );
    table.push(
        Entry {
            name: "init_trezor::init",
            handler: Handler::Task(TaskOperation::InitTrezor, TaskPhase::Init),
        },
    );
    table.push(
        Entry {
            name: "init_trezor::status",
            handler: Handler::Task(TaskOperation::InitTrezor, TaskPhase::Status),
        },
    );
    table.push(
        Entry {
            name: "init_trezor::user_action",
            handler: Handler::Task(TaskOperation::InitTrezor, TaskPhase::UserAction),
        },
    );
    table.push(
        Entry {
            name: "withdraw::cancel",
            handler: Handler::Task(TaskOperation::Withdraw, TaskPhase::Cancel),
        },
    );
    table.push(
        Entry {
            name: "withdraw::init",
            handler: Handler::Task(TaskOperation::Withdraw, TaskPhase::Init),
        },
    );
    table.push(
        Entry {
            name: "withdraw::status",
            handler: Handler::Task(TaskOperation::Withdraw, TaskPhase::Status),
        },
    );
    table.push(
        Entry {
            name: "withdraw::user_action",
            handler: Handler::Task(TaskOperation::Withdraw, TaskPhase::UserAction),
        },
    );
    table.push(
        Entry {
            name: "enable_z_coin::init",
            handler: Handler::Task(TaskOperation::EnableZCoin, TaskPhase::Init),
        },
    );
    table.push(
        Entry {
            name: "enable_z_coin::cancel",
            handler: Handler::Task(TaskOperation::EnableZCoin, TaskPhase::Cancel),
        },
    );
    table.push(
        Entry {
            name: "enable_z_coin::status",
            handler: Handler::Task(TaskOperation::EnableZCoin, TaskPhase::Status),
        },
    );
    table.push(
        Entry {
            name: "enable_z_coin::user_action",
            handler: Handler::Task(TaskOperation::EnableZCoin, TaskPhase::UserAction),
        },
    );
    assert(routes_of(table@) =~= common_task_routes());
    table
}

fn sia_task_table() -> (table: Vec<Entry>)
    ensures
        routes_of(table@) == sia_task_routes(),
{
    let mut table: Vec<Entry> = Vec::new();
    table.push(
            Entry {
                name: "enable_sia::init",
                handler: Handler::Task(TaskOperation::EnableSia, TaskPhase::Init),
            },
        );
    table.push(
            Entry {
                name: "enable_sia::status",
                handler: Handler::Task(TaskOperation::EnableSia, TaskPhase::Status),
            },
        );
    assert(routes_of(table@) =~= sia_task_routes());
    table
}

fn lightning_task_table() -> (table: Vec<Entry>)
    ensures
        routes_of(table@) == lightning_task_routes(),
{
    let mut table: Vec<Entry> = Vec::new();
    table.push(
            Entry {
                name: "enable_lightning::cancel",
                handler: Handler::Task(TaskOperation::EnableLightning, TaskPhase::Cancel),
            },
        );
    table.push(
            Entry {
                name: "enable_lightning::init",
                handler: Handler::Task(TaskOperation::EnableLightning, TaskPhase::Init),
            },
        );
    table.push(
            Entry {
                name: "enable_lightning::status",
                handler: Handler::Task(TaskOperation::EnableLightning, TaskPhase::Status),
            },
        );
    table.push(
            Entry {
                name: "enable_lightning::user_action",
                handler: Handler::Task(TaskOperation::EnableLightning, TaskPhase::UserAction),
            },
        );
    assert(routes_of(table@) =~= lightning_task_routes());
    table
}

fn metamask_task_table() -> (table: Vec<Entry>)
    ensures
        routes_of(table@) == metamask_task_routes(),
{
    let mut table: Vec<Entry> = Vec::new();
    table.push(
            Entry {
                name: "connect_metamask::cancel",
                handler: Handler::Task(TaskOperation::ConnectMetamask, TaskPhase::Cancel),
            },
        );
    table.push(
            Entry {
                name: "connect_metamask::init",
                handler: Handler::Task(TaskOperation::ConnectMetamask, TaskPhase::Init),
            },
        );
    table.push(
            Entry {
                name: "connect_metamask::status",
                handler: Handler::Task(TaskOperation::ConnectMetamask, TaskPhase::Status),
            },
        );
    assert(routes_of(table@) =~= metamask_task_routes());
    table
}

/// Appends `part` to `table` where the deployment includes it.
fn extend_table(table: &mut Vec<Entry>, part: Vec<Entry>, included: bool)
    ensures
        routes_of(final(table)@) == routes_of(old(table)@) + (if included {
            routes_of(part@)
        } else {
            Seq::empty()
        }),
{
    if included {
        let mut part = part;
        table.append(&mut part);
    }
    assert(routes_of(table@) =~= routes_of(old(table)@) + (if included {
        routes_of(part@)
    } else {
        Seq::empty()
    }));
}

fn task_table(caps: Capabilities) -> (table: Vec<Entry>)
    ensures
        routes_of(table@) == task_routes(caps),
{
    let mut table = common_task_table();
    extend_table(&mut table, sia_task_table(), caps.sia);
    extend_table(&mut table, lightning_task_table(), caps.lightning);
    extend_table(&mut table, metamask_task_table(), caps.metamask);
    table
}

fn gui_storage_table() -> (table: Vec<Entry>)
    ensures
        routes_of(table@) == gui_storage_routes(),
{
    let mut table: Vec<Entry> = Vec::new();
    table.push(
        Entry {
            name: "activate_coins",
            handler: Handler::GuiStorage(GuiStorageMethod::ActivateCoins),
        },
    );
    table.push(
        Entry { name: "add_account", handler: Handler::GuiStorage(GuiStorageMethod::AddAccount) },
    );
    table.push(
        Entry {
            name: "deactivate_coins",
            handler: Handler::GuiStorage(GuiStorageMethod::DeactivateCoins),
        },
    );
    table.push(
        Entry {
            name: "delete_account",
            handler: Handler::GuiStorage(GuiStorageMethod::DeleteAccount),
        },
    );
    table.push(
        Entry {
            name: "enable_account",
            handler: Handler::GuiStorage(GuiStorageMethod::EnableAccount),
        },
    );
    table.push(
        Entry { name: "get_accounts", handler: Handler::GuiStorage(GuiStorageMethod::GetAccounts) },
    );
    table.push(
        Entry {
            name: "get_account_coins",
            handler: Handler::GuiStorage(GuiStorageMethod::GetAccountCoins),
        },
    );
    table.push(
        Entry {
            name: "get_enabled_account",
            handler: Handler::GuiStorage(GuiStorageMethod::GetEnabledAccount),
        },
    );
    table.push(
        Entry {
            name: "set_account_balance",
            handler: Handler::GuiStorage(GuiStorageMethod::SetAccountBalance),
        },
    );
    table.push(
        Entry {
            name: "set_account_description",
            handler: Handler::GuiStorage(GuiStorageMethod::SetAccountDescription),
        },
    );
    table.push(
        Entry {
            name: "set_account_name",
            handler: Handler::GuiStorage(GuiStorageMethod::SetAccountName),
        },
    );
    assert(routes_of(table@) =~= gui_storage_routes());
    table
}

fn lightning_table() -> (table: Vec<Entry>)
    ensures
        routes_of(table@) == lightning_routes(),
{
    let mut table: Vec<Entry> = Vec::new();
    table.push(
        Entry {
            name: "channels::close_channel",
            handler: Handler::Lightning(LightningMethod::ChannelsCloseChannel),
        },
    );
    table.push(
        Entry {
            name: "channels::get_channel_details",
            handler: Handler::Lightning(LightningMethod::ChannelsGetChannelDetails),
        },
    );
    table.push(
        Entry {
            name: "channels::get_claimable_balances",
            handler: Handler::Lightning(LightningMethod::ChannelsGetClaimableBalances),
        },
    );
    table.push(
        Entry {
            name: "channels::list_closed_channels_by_filter",
            handler: Handler::Lightning(LightningMethod::ChannelsListClosedChannelsByFilter),
        },
    );
    table.push(
        Entry {
            name: "channels::list_open_channels_by_filter",
            handler: Handler::Lightning(LightningMethod::ChannelsListOpenChannelsByFilter),
        },
    );
    table.push(
        Entry {
            name: "channels::open_channel",
            handler: Handler::Lightning(LightningMethod::ChannelsOpenChannel),
        },
    );
    table.push(
        Entry {
            name: "channels::update_channel",
            handler: Handler::Lightning(LightningMethod::ChannelsUpdateChannel),
        },
    );
    table.push(
        Entry {
            name: "nodes::add_trusted_node",
            handler: Handler::Lightning(LightningMethod::NodesAddTrustedNode),
        },
    );
    table.push(
        Entry {
            name: "nodes::connect_to_node",
            handler: Handler::Lightning(LightningMethod::NodesConnectToNode),
        },
    );
    table.push(
        Entry {
            name: "nodes::list_trusted_nodes",
            handler: Handler::Lightning(LightningMethod::NodesListTrustedNodes),
        },
    );
    table.push(
        Entry {
            name: "nodes::remove_trusted_node",
            handler: Handler::Lightning(LightningMethod::NodesRemoveTrustedNode),
        },
    );
    table.push(
        Entry {
            name: "payments::generate_invoice",
            handler: Handler::Lightning(LightningMethod::PaymentsGenerateInvoice),
        },
    );
    table.push(
        Entry {
            name: "payments::get_payment_details",
            handler: Handler::Lightning(LightningMethod::PaymentsGetPaymentDetails),
        },
    );
    table.push(
        Entry {
            name: "payments::list_payments_by_filter",
            handler: Handler::Lightning(LightningMethod::PaymentsListPaymentsByFilter),
        },
    );
    table.push(
        Entry {
            name: "payments::send_payment",
            handler: Handler::Lightning(LightningMethod::PaymentsSendPayment),
        },
    );
    assert(routes_of(table@) =~= lightning_routes());
    table
}

fn staking_table() -> (table: Vec<Entry>)
    ensures
        routes_of(table@) == staking_routes(),
{
    let mut table: Vec<Entry> = Vec::new();
    table.push(
        Entry { name: "claim_rewards", handler: Handler::Staking(StakingMethod::ClaimRewards) },
    );
    table.push(Entry { name: "delegate", handler: Handler::Staking(StakingMethod::Delegate) });
    table.push(Entry { name: "undelegate", handler: Handler::Staking(StakingMethod::Undelegate) });
    assert(routes_of(table@) =~= staking_routes());
    table
}

fn staking_query_table() -> (table: Vec<Entry>)
    ensures
        routes_of(table@) == staking_query_routes(),
{
    let mut table: Vec<Entry> = Vec::new();
    table.push(
        Entry {
            name: "delegations",
            handler: Handler::StakingQuery(StakingQueryMethod::Delegations),
        },
    );
    table.push(
        Entry {
            name: "ongoing_undelegations",
            handler: Handler::StakingQuery(StakingQueryMethod::OngoingUndelegations),
        },
    );
    table.push(
        Entry {
            name: "validators",
            handler: Handler::StakingQuery(StakingQueryMethod::Validators),
        },
    );
    assert(routes_of(table@) =~= staking_query_routes());
    table
}

/// The routing tables of one deployment, built once at startup.
pub struct Router {
    caps: Capabilities,
    top_level: Vec<Entry>,
    stream: Vec<Entry>,
    task: Vec<Entry>,
    gui_storage: Vec<Entry>,
    lightning: Vec<Entry>,
    staking: Vec<Entry>,
    staking_query: Vec<Entry>,
}

impl Router {
    /// The capabilities that the router was built for.
    pub closed spec fn capabilities(&self) -> Capabilities {
        self.caps
    }

    /// The tables hold exactly the methods of the deployment.
    #[verifier::type_invariant]
    spec fn well_formed(&self) -> bool {
        &&& routes_of(self.top_level@) == top_level_routes()
        &&& routes_of(self.stream@) == stream_routes()
        &&& routes_of(self.task@) == task_routes(self.caps)
        &&& routes_of(self.gui_storage@) == gui_storage_routes()
        &&& routes_of(self.lightning@) == lightning_routes()
        &&& routes_of(self.staking@) == staking_routes()
        &&& routes_of(self.staking_query@) == staking_query_routes()
    }

    /// Builds the tables of a deployment with the capabilities `caps`.
    pub fn new(caps: Capabilities) -> (router: Router)
        ensures
            router.capabilities() == caps,
    {
        Router {
            caps,
            top_level: top_level_table(),
            stream: stream_table(),
            task: task_table(caps),
            gui_storage: gui_storage_table(),
            lightning: lightning_table(),
            staking: staking_table(),
            staking_query: staking_query_table(),
        }
    }

    /// The capabilities that the router was built for.
    pub fn caps(&self) -> (caps: Capabilities)
        ensures
            caps == self.capabilities(),
    {
        self.caps
    }

    /// Routes a name inside `stream::`.
    pub fn rpc_streaming_dispatcher(&self, streaming_request: &str) -> (r: Result<
        Handler,
        NoSuchMethod,
    >)
        ensures
            r == found(lookup(stream_routes(), streaming_request@)),
    {
        proof {
            use_type_invariant(self);
        }
        find(&self.stream, streaming_request)
    }

    /// Routes a name inside `task::`, of the form `<operation>::<phase>`.
    pub fn rpc_task_dispatcher(&self, task_method: &str) -> (r: Result<Handler, NoSuchMethod>)
        ensures
            r == found(lookup(task_routes(self.capabilities()), task_method@)),
    {
        proof {
            use_type_invariant(self);
        }
        find(&self.task, task_method)
    }

    /// Routes a name inside `gui_storage::`.
    pub fn gui_storage_dispatcher(&self, gui_storage_method: &str) -> (r: Result<
        Handler,
        NoSuchMethod,
    >)
        ensures
            r == found(lookup(gui_storage_routes(), gui_storage_method@)),
    {
        proof {
            use_type_invariant(self);
        }
        find(&self.gui_storage, gui_storage_method)
    }

    /// Routes a name inside `lightning::`.
    pub fn lightning_dispatcher(&self, lightning_method: &str) -> (r: Result<
        Handler,
        NoSuchMethod,
    >)
        ensures
            r == found(lookup(lightning_routes(), lightning_method@)),
    {
        proof {
            use_type_invariant(self);
        }
        find(&self.lightning, lightning_method)
    }

    /// Routes a name inside `experimental::staking::`: the `query::` prefix
    /// is peeled first, and a name without it goes to the staking table.
    pub fn staking_dispatcher(&self, staking_method: &str) -> (r: Result<Handler, NoSuchMethod>)
        ensures
            r == found(staking_route(staking_method@)),
    {
        proof {
            use_type_invariant(self);
        }
        match strip_prefix(staking_method, "query::") {
            Some(query_method) => find(&self.staking_query, query_method),
            None => find(&self.staking, staking_method),
        }
    }

    /// Routes a name inside `experimental::`.
    pub fn experimental_rpcs_dispatcher(&self, experimental_method: &str) -> (r: Result<
        Handler,
        NoSuchMethod,
    >)
        ensures
            r == found(experimental_route(experimental_method@)),
    {
        match strip_prefix(experimental_method, "staking::") {
            Some(staking_method) => self.staking_dispatcher(staking_method),
            None => Err(NoSuchMethod),
        }
    }

    /// Routes a full method name.
    pub fn dispatcher_v2(&self, method: &str) -> (r: Result<Handler, NoSuchMethod>)
        ensures
            r == found(route_v2(self.capabilities(), method@)),
    {
        proof {
            use_type_invariant(self);
        }
        if let Some(streaming_request) = strip_prefix(method, "stream::") {
            return self.rpc_streaming_dispatcher(streaming_request);
        }
        if let Some(task_method) = strip_prefix(method, "task::") {
            return self.rpc_task_dispatcher(task_method);
        }
        if let Some(gui_storage_method) = strip_prefix(method, "gui_storage::") {
            return self.gui_storage_dispatcher(gui_storage_method);
        }
        if let Some(experimental_method) = strip_prefix(method, "experimental::") {
            return self.experimental_rpcs_dispatcher(experimental_method);
        }
        if self.caps.lightning {
            if let Some(lightning_method) = strip_prefix(method, "lightning::") {
                return self.lightning_dispatcher(lightning_method);
            }
        }
        find(&self.top_level, method)
    }
}

} // verus!
