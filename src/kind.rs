//! The closed set of inbound message kinds and their numeric tags.
use vstd::prelude::*;

use crate::decimal::{i64_of, parse_i64};

verus! {

/// The kind of an inbound message, named by the numeric tag in its first field.
#[derive(Debug, Clone, Copy, PartialEq, Eq, Structural, Hash)]
pub enum MessageKind {
    TickPrice,
    TickSize,
    OrderStatus,
    ErrMsg,
    OpenOrder,
    AcctValue,
    PortfolioValue,
    AcctUpdateTime,
    NextValidId,
    ContractData,
    ExecutionData,
    MarketDepth,
    MarketDepthL2,
    NewsBulletins,
    ManagedAccts,
    ReceiveFa,
    HistoricalData,
    BondContractData,
    ScannerParameters,
    ScannerData,
    TickOptionComputation,
    TickGeneric,
    TickString,
    TickEfp,
    CurrentTime,
    RealTimeBars,
    FundamentalData,
    ContractDataEnd,
    OpenOrderEnd,
    AcctDownloadEnd,
    ExecutionDataEnd,
    DeltaNeutralValidation,
    TickSnapshotEnd,
    MarketDataType,
    CommissionReport,
    PositionData,
    PositionEnd,
    AccountSummary,
    AccountSummaryEnd,
    VerifyMessageApi,
    VerifyCompleted,
    DisplayGroupList,
    DisplayGroupUpdated,
    VerifyAndAuthMessageApi,
    VerifyAndAuthCompleted,
    PositionMulti,
    PositionMultiEnd,
    AccountUpdateMulti,
    AccountUpdateMultiEnd,
    SecurityDefinitionOptionParameter,
    SecurityDefinitionOptionParameterEnd,
    SoftDollarTiers,
    FamilyCodes,
    SymbolSamples,
    MktDepthExchanges,
    TickReqParams,
    SmartComponents,
    NewsArticle,
    TickNews,
    NewsProviders,
    HistoricalNews,
    HistoricalNewsEnd,
    HeadTimestamp,
    HistogramData,
    HistoricalDataUpdate,
    RerouteMktDataReq,
    RerouteMktDepthReq,
    MarketRule,
    Pnl,
    PnlSingle,
    HistoricalTicks,
    HistoricalTicksBidAsk,
    HistoricalTicksLast,
    TickByTick,
    OrderBound,
    CompletedOrder,
    CompletedOrdersEnd,
    ReplaceFaEnd,
    WshMetaData,
    WshEventData,
    HistoricalSchedule,
    UserInfo,
}

/// The numeric tag that names `k` on the wire.
pub open spec fn code_of(k: MessageKind) -> i64 {
    match k {
        MessageKind::TickPrice => 1,
        MessageKind::TickSize => 2,
        MessageKind::OrderStatus => 3,
        MessageKind::ErrMsg => 4,
        MessageKind::OpenOrder => 5,
        MessageKind::AcctValue => 6,
        MessageKind::PortfolioValue => 7,
        MessageKind::AcctUpdateTime => 8,
        MessageKind::NextValidId => 9,
        MessageKind::ContractData => 10,
        MessageKind::ExecutionData => 11,
        MessageKind::MarketDepth => 12,
        MessageKind::MarketDepthL2 => 13,
        MessageKind::NewsBulletins => 14,
        MessageKind::ManagedAccts => 15,
        MessageKind::ReceiveFa => 16,
        MessageKind::HistoricalData => 17,
        MessageKind::BondContractData => 18,
        MessageKind::ScannerParameters => 19,
        MessageKind::ScannerData => 20,
        MessageKind::TickOptionComputation => 21,
        MessageKind::TickGeneric => 45,
        MessageKind::TickString => 46,
        MessageKind::TickEfp => 47,
        MessageKind::CurrentTime => 49,
        MessageKind::RealTimeBars => 50,
        MessageKind::FundamentalData => 51,
        MessageKind::ContractDataEnd => 52,
        MessageKind::OpenOrderEnd => 53,
        MessageKind::AcctDownloadEnd => 54,
        MessageKind::ExecutionDataEnd => 55,
        MessageKind::DeltaNeutralValidation => 56,
        MessageKind::TickSnapshotEnd => 57,
        MessageKind::MarketDataType => 58,
        MessageKind::CommissionReport => 59,
        MessageKind::PositionData => 61,
        MessageKind::PositionEnd => 62,
        MessageKind::AccountSummary => 63,
        MessageKind::AccountSummaryEnd => 64,
        MessageKind::VerifyMessageApi => 65,
        MessageKind::VerifyCompleted => 66,
        MessageKind::DisplayGroupList => 67,
        MessageKind::DisplayGroupUpdated => 68,
        MessageKind::VerifyAndAuthMessageApi => 69,
        MessageKind::VerifyAndAuthCompleted => 70,
        MessageKind::PositionMulti => 71,
        MessageKind::PositionMultiEnd => 72,
        MessageKind::AccountUpdateMulti => 73,
        MessageKind::AccountUpdateMultiEnd => 74,
        MessageKind::SecurityDefinitionOptionParameter => 75,
        MessageKind::SecurityDefinitionOptionParameterEnd => 76,
        MessageKind::SoftDollarTiers => 77,
        MessageKind::FamilyCodes => 78,
        MessageKind::SymbolSamples => 79,
        MessageKind::MktDepthExchanges => 80,
        MessageKind::TickReqParams => 81,
        MessageKind::SmartComponents => 82,
        MessageKind::NewsArticle => 83,
        MessageKind::TickNews => 84,
        MessageKind::NewsProviders => 85,
        MessageKind::HistoricalNews => 86,
        MessageKind::HistoricalNewsEnd => 87,
        MessageKind::HeadTimestamp => 88,
        MessageKind::HistogramData => 89,
        MessageKind::HistoricalDataUpdate => 90,
        MessageKind::RerouteMktDataReq => 91,
        MessageKind::RerouteMktDepthReq => 92,
        MessageKind::MarketRule => 93,
        MessageKind::Pnl => 94,
        MessageKind::PnlSingle => 95,
        MessageKind::HistoricalTicks => 96,
        MessageKind::HistoricalTicksBidAsk => 97,
        MessageKind::HistoricalTicksLast => 98,
        MessageKind::TickByTick => 99,
        MessageKind::OrderBound => 100,
        MessageKind::CompletedOrder => 101,
        MessageKind::CompletedOrdersEnd => 102,
        MessageKind::ReplaceFaEnd => 103,
        MessageKind::WshMetaData => 104,
        MessageKind::WshEventData => 105,
        MessageKind::HistoricalSchedule => 106,
        MessageKind::UserInfo => 107,
    }
}

/// The kind that the numeric tag `n` names, if any.
pub open spec fn kind_of_code(n: i64) -> Option<MessageKind> {
    match n {
        1 => Some(MessageKind::TickPrice),
        2 => Some(MessageKind::TickSize),
        3 => Some(MessageKind::OrderStatus),
        4 => Some(MessageKind::ErrMsg),
        5 => Some(MessageKind::OpenOrder),
        6 => Some(MessageKind::AcctValue),
        7 => Some(MessageKind::PortfolioValue),
        8 => Some(MessageKind::AcctUpdateTime),
        9 => Some(MessageKind::NextValidId),
        10 => Some(MessageKind::ContractData),
        11 => Some(MessageKind::ExecutionData),
        12 => Some(MessageKind::MarketDepth),
        13 => Some(MessageKind::MarketDepthL2),
        14 => Some(MessageKind::NewsBulletins),
        15 => Some(MessageKind::ManagedAccts),
        16 => Some(MessageKind::ReceiveFa),
        17 => Some(MessageKind::HistoricalData),
        18 => Some(MessageKind::BondContractData),
        19 => Some(MessageKind::ScannerParameters),
        20 => Some(MessageKind::ScannerData),
        21 => Some(MessageKind::TickOptionComputation),
        45 => Some(MessageKind::TickGeneric),
        46 => Some(MessageKind::TickString),
        47 => Some(MessageKind::TickEfp),
        49 => Some(MessageKind::CurrentTime),
        50 => Some(MessageKind::RealTimeBars),
        51 => Some(MessageKind::FundamentalData),
        52 => Some(MessageKind::ContractDataEnd),
        53 => Some(MessageKind::OpenOrderEnd),
        54 => Some(MessageKind::AcctDownloadEnd),
        55 => Some(MessageKind::ExecutionDataEnd),
        56 => Some(MessageKind::DeltaNeutralValidation),
        57 => Some(MessageKind::TickSnapshotEnd),
        58 => Some(MessageKind::MarketDataType),
        59 => Some(MessageKind::CommissionReport),
        61 => Some(MessageKind::PositionData),
        62 => Some(MessageKind::PositionEnd),
        63 => Some(MessageKind::AccountSummary),
        64 => Some(MessageKind::AccountSummaryEnd),
        65 => Some(MessageKind::VerifyMessageApi),
        66 => Some(MessageKind::VerifyCompleted),
        67 => Some(MessageKind::DisplayGroupList),
        68 => Some(MessageKind::DisplayGroupUpdated),
        69 => Some(MessageKind::VerifyAndAuthMessageApi),
        70 => Some(MessageKind::VerifyAndAuthCompleted),
        71 => Some(MessageKind::PositionMulti),
        72 => Some(MessageKind::PositionMultiEnd),
        73 => Some(MessageKind::AccountUpdateMulti),
        74 => Some(MessageKind::AccountUpdateMultiEnd),
        75 => Some(MessageKind::SecurityDefinitionOptionParameter),
        76 => Some(MessageKind::SecurityDefinitionOptionParameterEnd),
        77 => Some(MessageKind::SoftDollarTiers),
        78 => Some(MessageKind::FamilyCodes),
        79 => Some(MessageKind::SymbolSamples),
        80 => Some(MessageKind::MktDepthExchanges),
        81 => Some(MessageKind::TickReqParams),
        82 => Some(MessageKind::SmartComponents),
        83 => Some(MessageKind::NewsArticle),
        84 => Some(MessageKind::TickNews),
        85 => Some(MessageKind::NewsProviders),
        86 => Some(MessageKind::HistoricalNews),
        87 => Some(MessageKind::HistoricalNewsEnd),
        88 => Some(MessageKind::HeadTimestamp),
        89 => Some(MessageKind::HistogramData),
        90 => Some(MessageKind::HistoricalDataUpdate),
        91 => Some(MessageKind::RerouteMktDataReq),
        92 => Some(MessageKind::RerouteMktDepthReq),
        93 => Some(MessageKind::MarketRule),
        94 => Some(MessageKind::Pnl),
        95 => Some(MessageKind::PnlSingle),
        96 => Some(MessageKind::HistoricalTicks),
        97 => Some(MessageKind::HistoricalTicksBidAsk),
        98 => Some(MessageKind::HistoricalTicksLast),
        99 => Some(MessageKind::TickByTick),
        100 => Some(MessageKind::OrderBound),
        101 => Some(MessageKind::CompletedOrder),
        102 => Some(MessageKind::CompletedOrdersEnd),
        103 => Some(MessageKind::ReplaceFaEnd),
        104 => Some(MessageKind::WshMetaData),
        105 => Some(MessageKind::WshEventData),
        106 => Some(MessageKind::HistoricalSchedule),
        107 => Some(MessageKind::UserInfo),
        _ => None,
    }
}

/// The kind that a tag field names: a decimal integer that is one of the known tags.
pub open spec fn kind_of_tag(t: Seq<char>) -> Option<MessageKind> {
    match i64_of(t) {
        Some(n) => kind_of_code(n),
        None => None,
    }
}

/// The human-readable name of `k`, for diagnostics.
pub open spec fn label_of(k: MessageKind) -> Seq<char> {
    match k {
        MessageKind::TickPrice => "tick price"@,
        MessageKind::TickSize => "tick size"@,
        MessageKind::OrderStatus => "order status"@,
        MessageKind::ErrMsg => "err msg"@,
        MessageKind::OpenOrder => "open order"@,
        MessageKind::AcctValue => "acct value"@,
        MessageKind::PortfolioValue => "portfolio value"@,
        MessageKind::AcctUpdateTime => "acct update time"@,
        MessageKind::NextValidId => "next valid id"@,
        MessageKind::ContractData => "contract data"@,
        MessageKind::ExecutionData => "execution data"@,
        MessageKind::MarketDepth => "market depth"@,
        MessageKind::MarketDepthL2 => "market depth l2"@,
        MessageKind::NewsBulletins => "news bulletins"@,
        MessageKind::ManagedAccts => "managed accounts"@,
        MessageKind::ReceiveFa => "receive fa"@,
        MessageKind::HistoricalData => "historical data"@,
        MessageKind::BondContractData => "bond contract data"@,
        MessageKind::ScannerParameters => "scanner parameters"@,
        MessageKind::ScannerData => "scanner data"@,
        MessageKind::TickOptionComputation => "tick option computation"@,
        MessageKind::TickGeneric => "tick generic"@,
        MessageKind::TickString => "tick string"@,
        MessageKind::TickEfp => "tick efp"@,
        MessageKind::CurrentTime => "current time"@,
        MessageKind::RealTimeBars => "real time bars"@,
        MessageKind::FundamentalData => "fundamental data"@,
        MessageKind::ContractDataEnd => "contract data end"@,
        MessageKind::OpenOrderEnd => "open order end"@,
        MessageKind::AcctDownloadEnd => "acct download end"@,
        MessageKind::ExecutionDataEnd => "execution data end"@,
        MessageKind::DeltaNeutralValidation => "delta neutral validation"@,
        MessageKind::TickSnapshotEnd => "tick snapshot end"@,
        MessageKind::MarketDataType => "market data type"@,
        MessageKind::CommissionReport => "commission report"@,
        MessageKind::PositionData => "position data"@,
        MessageKind::PositionEnd => "position end"@,
        MessageKind::AccountSummary => "account summary"@,
        MessageKind::AccountSummaryEnd => "account summary end"@,
        MessageKind::VerifyMessageApi => "verify message api"@,
        MessageKind::VerifyCompleted => "verify completed"@,
        MessageKind::DisplayGroupList => "display group list"@,
        MessageKind::DisplayGroupUpdated => "display group updated"@,
        MessageKind::VerifyAndAuthMessageApi => "verify and auth message api"@,
        MessageKind::VerifyAndAuthCompleted => "verify and auth completed"@,
        MessageKind::PositionMulti => "position multi"@,
        MessageKind::PositionMultiEnd => "position multi end"@,
        MessageKind::AccountUpdateMulti => "account update multi"@,
        MessageKind::AccountUpdateMultiEnd => "account update multi end"@,
        MessageKind::SecurityDefinitionOptionParameter => "security definition option parameter"@,
        MessageKind::SecurityDefinitionOptionParameterEnd => "security definition option parameter end"@,
        MessageKind::SoftDollarTiers => "soft dollar tiers"@,
        MessageKind::FamilyCodes => "family codes"@,
        MessageKind::SymbolSamples => "symbol samples"@,
        MessageKind::MktDepthExchanges => "mkt depth exchanges"@,
        MessageKind::TickReqParams => "tick req params"@,
        MessageKind::SmartComponents => "smart components"@,
        MessageKind::NewsArticle => "news article"@,
        MessageKind::TickNews => "tick news"@,
        MessageKind::NewsProviders => "news providers"@,
        MessageKind::HistoricalNews => "historical news"@,
        MessageKind::HistoricalNewsEnd => "historical news end"@,
        MessageKind::HeadTimestamp => "head timestamp"@,
        MessageKind::HistogramData => "histogram data"@,
        MessageKind::HistoricalDataUpdate => "historical data update"@,
        MessageKind::RerouteMktDataReq => "reroute mkt data req"@,
        MessageKind::RerouteMktDepthReq => "reroute mkt depth req"@,
        MessageKind::MarketRule => "market rule"@,
        MessageKind::Pnl => "pnl"@,
        MessageKind::PnlSingle => "pnl single"@,
        MessageKind::HistoricalTicks => "historical ticks"@,
        MessageKind::HistoricalTicksBidAsk => "historical ticks bid ask"@,
        MessageKind::HistoricalTicksLast => "historical ticks last"@,
        MessageKind::TickByTick => "tick by tick"@,
        MessageKind::OrderBound => "order bound"@,
        MessageKind::CompletedOrder => "completed order"@,
        MessageKind::CompletedOrdersEnd => "completed orders end"@,
        MessageKind::ReplaceFaEnd => "replace fa end"@,
        MessageKind::WshMetaData => "wsh meta data"@,
        MessageKind::WshEventData => "wsh event data"@,
        MessageKind::HistoricalSchedule => "historical schedule"@,
        MessageKind::UserInfo => "user info"@,
    }
}

impl MessageKind {
    /// The numeric tag of this kind.
    pub fn code(&self) -> (r: i64)
        ensures
            r == code_of(*self),
    {
        match self {
            MessageKind::TickPrice => 1,
            MessageKind::TickSize => 2,
            MessageKind::OrderStatus => 3,
            MessageKind::ErrMsg => 4,
            MessageKind::OpenOrder => 5,
            MessageKind::AcctValue => 6,
            MessageKind::PortfolioValue => 7,
            MessageKind::AcctUpdateTime => 8,
            MessageKind::NextValidId => 9,
            MessageKind::ContractData => 10,
            MessageKind::ExecutionData => 11,
            MessageKind::MarketDepth => 12,
            MessageKind::MarketDepthL2 => 13,
            MessageKind::NewsBulletins => 14,
            MessageKind::ManagedAccts => 15,
            MessageKind::ReceiveFa => 16,
            MessageKind::HistoricalData => 17,
            MessageKind::BondContractData => 18,
            MessageKind::ScannerParameters => 19,
            MessageKind::ScannerData => 20,
            MessageKind::TickOptionComputation => 21,
            MessageKind::TickGeneric => 45,
            MessageKind::TickString => 46,
            MessageKind::TickEfp => 47,
            MessageKind::CurrentTime => 49,
            MessageKind::RealTimeBars => 50,
            MessageKind::FundamentalData => 51,
            MessageKind::ContractDataEnd => 52,
            MessageKind::OpenOrderEnd => 53,
            MessageKind::AcctDownloadEnd => 54,
            MessageKind::ExecutionDataEnd => 55,
            MessageKind::DeltaNeutralValidation => 56,
            MessageKind::TickSnapshotEnd => 57,
            MessageKind::MarketDataType => 58,
            MessageKind::CommissionReport => 59,
            MessageKind::PositionData => 61,
            MessageKind::PositionEnd => 62,
            MessageKind::AccountSummary => 63,
            MessageKind::AccountSummaryEnd => 64,
            MessageKind::VerifyMessageApi => 65,
            MessageKind::VerifyCompleted => 66,
            MessageKind::DisplayGroupList => 67,
            MessageKind::DisplayGroupUpdated => 68,
            MessageKind::VerifyAndAuthMessageApi => 69,
            MessageKind::VerifyAndAuthCompleted => 70,
            MessageKind::PositionMulti => 71,
            MessageKind::PositionMultiEnd => 72,
            MessageKind::AccountUpdateMulti => 73,
            MessageKind::AccountUpdateMultiEnd => 74,
            MessageKind::SecurityDefinitionOptionParameter => 75,
            MessageKind::SecurityDefinitionOptionParameterEnd => 76,
            MessageKind::SoftDollarTiers => 77,
            MessageKind::FamilyCodes => 78,
            MessageKind::SymbolSamples => 79,
            MessageKind::MktDepthExchanges => 80,
            MessageKind::TickReqParams => 81,
            MessageKind::SmartComponents => 82,
            MessageKind::NewsArticle => 83,
            MessageKind::TickNews => 84,
            MessageKind::NewsProviders => 85,
            MessageKind::HistoricalNews => 86,
            MessageKind::HistoricalNewsEnd => 87,
            MessageKind::HeadTimestamp => 88,
            MessageKind::HistogramData => 89,
            MessageKind::HistoricalDataUpdate => 90,
            MessageKind::RerouteMktDataReq => 91,
            MessageKind::RerouteMktDepthReq => 92,
            MessageKind::MarketRule => 93,
            MessageKind::Pnl => 94,
            MessageKind::PnlSingle => 95,
            MessageKind::HistoricalTicks => 96,
            MessageKind::HistoricalTicksBidAsk => 97,
            MessageKind::HistoricalTicksLast => 98,
            MessageKind::TickByTick => 99,
            MessageKind::OrderBound => 100,
            MessageKind::CompletedOrder => 101,
            MessageKind::CompletedOrdersEnd => 102,
            MessageKind::ReplaceFaEnd => 103,
            MessageKind::WshMetaData => 104,
            MessageKind::WshEventData => 105,
            MessageKind::HistoricalSchedule => 106,
            MessageKind::UserInfo => 107,
        }
    }

    /// The kind named by the numeric tag `n`; `None` for a tag that names no known kind.
    pub fn from_code(n: i64) -> (r: Option<MessageKind>)
        ensures
            r == kind_of_code(n),
    {
        match n {
            1 => Some(MessageKind::TickPrice),
            2 => Some(MessageKind::TickSize),
            3 => Some(MessageKind::OrderStatus),
            4 => Some(MessageKind::ErrMsg),
            5 => Some(MessageKind::OpenOrder),
            6 => Some(MessageKind::AcctValue),
            7 => Some(MessageKind::PortfolioValue),
            8 => Some(MessageKind::AcctUpdateTime),
            9 => Some(MessageKind::NextValidId),
            10 => Some(MessageKind::ContractData),
            11 => Some(MessageKind::ExecutionData),
            12 => Some(MessageKind::MarketDepth),
            13 => Some(MessageKind::MarketDepthL2),
            14 => Some(MessageKind::NewsBulletins),
            15 => Some(MessageKind::ManagedAccts),
            16 => Some(MessageKind::ReceiveFa),
            17 => Some(MessageKind::HistoricalData),
            18 => Some(MessageKind::BondContractData),
            19 => Some(MessageKind::ScannerParameters),
            20 => Some(MessageKind::ScannerData),
            21 => Some(MessageKind::TickOptionComputation),
            45 => Some(MessageKind::TickGeneric),
            46 => Some(MessageKind::TickString),
            47 => Some(MessageKind::TickEfp),
            49 => Some(MessageKind::CurrentTime),
            50 => Some(MessageKind::RealTimeBars),
            51 => Some(MessageKind::FundamentalData),
            52 => Some(MessageKind::ContractDataEnd),
            53 => Some(MessageKind::OpenOrderEnd),
            54 => Some(MessageKind::AcctDownloadEnd),
            55 => Some(MessageKind::ExecutionDataEnd),
            56 => Some(MessageKind::DeltaNeutralValidation),
            57 => Some(MessageKind::TickSnapshotEnd),
            58 => Some(MessageKind::MarketDataType),
            59 => Some(MessageKind::CommissionReport),
            61 => Some(MessageKind::PositionData),
            62 => Some(MessageKind::PositionEnd),
            63 => Some(MessageKind::AccountSummary),
            64 => Some(MessageKind::AccountSummaryEnd),
            65 => Some(MessageKind::VerifyMessageApi),
            66 => Some(MessageKind::VerifyCompleted),
            67 => Some(MessageKind::DisplayGroupList),
            68 => Some(MessageKind::DisplayGroupUpdated),
            69 => Some(MessageKind::VerifyAndAuthMessageApi),
            70 => Some(MessageKind::VerifyAndAuthCompleted),
            71 => Some(MessageKind::PositionMulti),
            72 => Some(MessageKind::PositionMultiEnd),
            73 => Some(MessageKind::AccountUpdateMulti),
            74 => Some(MessageKind::AccountUpdateMultiEnd),
            75 => Some(MessageKind::SecurityDefinitionOptionParameter),
            76 => Some(MessageKind::SecurityDefinitionOptionParameterEnd),
            77 => Some(MessageKind::SoftDollarTiers),
            78 => Some(MessageKind::FamilyCodes),
            79 => Some(MessageKind::SymbolSamples),
            80 => Some(MessageKind::MktDepthExchanges),
            81 => Some(MessageKind::TickReqParams),
            82 => Some(MessageKind::SmartComponents),
            83 => Some(MessageKind::NewsArticle),
            84 => Some(MessageKind::TickNews),
            85 => Some(MessageKind::NewsProviders),
            86 => Some(MessageKind::HistoricalNews),
            87 => Some(MessageKind::HistoricalNewsEnd),
            88 => Some(MessageKind::HeadTimestamp),
            89 => Some(MessageKind::HistogramData),
            90 => Some(MessageKind::HistoricalDataUpdate),
            91 => Some(MessageKind::RerouteMktDataReq),
            92 => Some(MessageKind::RerouteMktDepthReq),
            93 => Some(MessageKind::MarketRule),
            94 => Some(MessageKind::Pnl),
            95 => Some(MessageKind::PnlSingle),
            96 => Some(MessageKind::HistoricalTicks),
            97 => Some(MessageKind::HistoricalTicksBidAsk),
            98 => Some(MessageKind::HistoricalTicksLast),
            99 => Some(MessageKind::TickByTick),
            100 => Some(MessageKind::OrderBound),
            101 => Some(MessageKind::CompletedOrder),
            102 => Some(MessageKind::CompletedOrdersEnd),
            103 => Some(MessageKind::ReplaceFaEnd),
            104 => Some(MessageKind::WshMetaData),
            105 => Some(MessageKind::WshEventData),
            106 => Some(MessageKind::HistoricalSchedule),
            107 => Some(MessageKind::UserInfo),
            _ => None,
        }
    }

    /// The human-readable name of this kind.
    pub fn label(&self) -> (r: &'static str)
        ensures
            r@ == label_of(*self),
    {
        match self {
            MessageKind::TickPrice => "tick price",
            MessageKind::TickSize => "tick size",
            MessageKind::OrderStatus => "order status",
            MessageKind::ErrMsg => "err msg",
            MessageKind::OpenOrder => "open order",
            MessageKind::AcctValue => "acct value",
            MessageKind::PortfolioValue => "portfolio value",
            MessageKind::AcctUpdateTime => "acct update time",
            MessageKind::NextValidId => "next valid id",
            MessageKind::ContractData => "contract data",
            MessageKind::ExecutionData => "execution data",
            MessageKind::MarketDepth => "market depth",
            MessageKind::MarketDepthL2 => "market depth l2",
            MessageKind::NewsBulletins => "news bulletins",
            MessageKind::ManagedAccts => "managed accounts",
            MessageKind::ReceiveFa => "receive fa",
            MessageKind::HistoricalData => "historical data",
            MessageKind::BondContractData => "bond contract data",
            MessageKind::ScannerParameters => "scanner parameters",
            MessageKind::ScannerData => "scanner data",
            MessageKind::TickOptionComputation => "tick option computation",
            MessageKind::TickGeneric => "tick generic",
            MessageKind::TickString => "tick string",
            MessageKind::TickEfp => "tick efp",
            MessageKind::CurrentTime => "current time",
            MessageKind::RealTimeBars => "real time bars",
            MessageKind::FundamentalData => "fundamental data",
            MessageKind::ContractDataEnd => "contract data end",
            MessageKind::OpenOrderEnd => "open order end",
            MessageKind::AcctDownloadEnd => "acct download end",
            MessageKind::ExecutionDataEnd => "execution data end",
            MessageKind::DeltaNeutralValidation => "delta neutral validation",
            MessageKind::TickSnapshotEnd => "tick snapshot end",
            MessageKind::MarketDataType => "market data type",
            MessageKind::CommissionReport => "commission report",
            MessageKind::PositionData => "position data",
            MessageKind::PositionEnd => "position end",
            MessageKind::AccountSummary => "account summary",
            MessageKind::AccountSummaryEnd => "account summary end",
            MessageKind::VerifyMessageApi => "verify message api",
            MessageKind::VerifyCompleted => "verify completed",
            MessageKind::DisplayGroupList => "display group list",
            MessageKind::DisplayGroupUpdated => "display group updated",
            MessageKind::VerifyAndAuthMessageApi => "verify and auth message api",
            MessageKind::VerifyAndAuthCompleted => "verify and auth completed",
            MessageKind::PositionMulti => "position multi",
            MessageKind::PositionMultiEnd => "position multi end",
            MessageKind::AccountUpdateMulti => "account update multi",
            MessageKind::AccountUpdateMultiEnd => "account update multi end",
            MessageKind::SecurityDefinitionOptionParameter => "security definition option parameter",
            MessageKind::SecurityDefinitionOptionParameterEnd => "security definition option parameter end",
            MessageKind::SoftDollarTiers => "soft dollar tiers",
            MessageKind::FamilyCodes => "family codes",
            MessageKind::SymbolSamples => "symbol samples",
            MessageKind::MktDepthExchanges => "mkt depth exchanges",
            MessageKind::TickReqParams => "tick req params",
            MessageKind::SmartComponents => "smart components",
            MessageKind::NewsArticle => "news article",
            MessageKind::TickNews => "tick news",
            MessageKind::NewsProviders => "news providers",
            MessageKind::HistoricalNews => "historical news",
            MessageKind::HistoricalNewsEnd => "historical news end",
            MessageKind::HeadTimestamp => "head timestamp",
            MessageKind::HistogramData => "histogram data",
            MessageKind::HistoricalDataUpdate => "historical data update",
            MessageKind::RerouteMktDataReq => "reroute mkt data req",
            MessageKind::RerouteMktDepthReq => "reroute mkt depth req",
            MessageKind::MarketRule => "market rule",
            MessageKind::Pnl => "pnl",
            MessageKind::PnlSingle => "pnl single",
            MessageKind::HistoricalTicks => "historical ticks",
            MessageKind::HistoricalTicksBidAsk => "historical ticks bid ask",
            MessageKind::HistoricalTicksLast => "historical ticks last",
            MessageKind::TickByTick => "tick by tick",
            MessageKind::OrderBound => "order bound",
            MessageKind::CompletedOrder => "completed order",
            MessageKind::CompletedOrdersEnd => "completed orders end",
            MessageKind::ReplaceFaEnd => "replace fa end",
            MessageKind::WshMetaData => "wsh meta data",
            MessageKind::WshEventData => "wsh event data",
            MessageKind::HistoricalSchedule => "historical schedule",
            MessageKind::UserInfo => "user info",
        }
    }
}

/// Reads the kind named by a tag field; `None` when the field is not a decimal integer or
/// names no known kind.
pub fn parse_tag(t: &str) -> (r: Option<MessageKind>)
    ensures
        r == kind_of_tag(t@),
{
    match parse_i64(t) {
        Some(n) => MessageKind::from_code(n),
        None => None,
    }
}

/// Every kind is read back from its own tag.
pub proof fn lemma_code_round_trip(k: MessageKind)
    ensures
        kind_of_code(code_of(k)) == Some(k),
{
    match k {
        MessageKind::TickPrice => {},
        MessageKind::TickSize => {},
        MessageKind::OrderStatus => {},
        MessageKind::ErrMsg => {},
        MessageKind::OpenOrder => {},
        MessageKind::AcctValue => {},
        MessageKind::PortfolioValue => {},
        MessageKind::AcctUpdateTime => {},
        MessageKind::NextValidId => {},
        MessageKind::ContractData => {},
        MessageKind::ExecutionData => {},
        MessageKind::MarketDepth => {},
        MessageKind::MarketDepthL2 => {},
        MessageKind::NewsBulletins => {},
        MessageKind::ManagedAccts => {},
        MessageKind::ReceiveFa => {},
        MessageKind::HistoricalData => {},
        MessageKind::BondContractData => {},
        MessageKind::ScannerParameters => {},
        MessageKind::ScannerData => {},
        MessageKind::TickOptionComputation => {},
        MessageKind::TickGeneric => {},
        MessageKind::TickString => {},
        MessageKind::TickEfp => {},
        MessageKind::CurrentTime => {},
        MessageKind::RealTimeBars => {},
        MessageKind::FundamentalData => {},
        MessageKind::ContractDataEnd => {},
        MessageKind::OpenOrderEnd => {},
        MessageKind::AcctDownloadEnd => {},
        MessageKind::ExecutionDataEnd => {},
        MessageKind::DeltaNeutralValidation => {},
        MessageKind::TickSnapshotEnd => {},
        MessageKind::MarketDataType => {},
        MessageKind::CommissionReport => {},
        MessageKind::PositionData => {},
        MessageKind::PositionEnd => {},
        MessageKind::AccountSummary => {},
        MessageKind::AccountSummaryEnd => {},
        MessageKind::VerifyMessageApi => {},
        MessageKind::VerifyCompleted => {},
        MessageKind::DisplayGroupList => {},
        MessageKind::DisplayGroupUpdated => {},
        MessageKind::VerifyAndAuthMessageApi => {},
        MessageKind::VerifyAndAuthCompleted => {},
        MessageKind::PositionMulti => {},
        MessageKind::PositionMultiEnd => {},
        MessageKind::AccountUpdateMulti => {},
        MessageKind::AccountUpdateMultiEnd => {},
        MessageKind::SecurityDefinitionOptionParameter => {},
        MessageKind::SecurityDefinitionOptionParameterEnd => {},
        MessageKind::SoftDollarTiers => {},
        MessageKind::FamilyCodes => {},
        MessageKind::SymbolSamples => {},
        MessageKind::MktDepthExchanges => {},
        MessageKind::TickReqParams => {},
        MessageKind::SmartComponents => {},
        MessageKind::NewsArticle => {},
        MessageKind::TickNews => {},
        MessageKind::NewsProviders => {},
        MessageKind::HistoricalNews => {},
        MessageKind::HistoricalNewsEnd => {},
        MessageKind::HeadTimestamp => {},
        MessageKind::HistogramData => {},
        MessageKind::HistoricalDataUpdate => {},
        MessageKind::RerouteMktDataReq => {},
        MessageKind::RerouteMktDepthReq => {},
        MessageKind::MarketRule => {},
        MessageKind::Pnl => {},
        MessageKind::PnlSingle => {},
        MessageKind::HistoricalTicks => {},
        MessageKind::HistoricalTicksBidAsk => {},
        MessageKind::HistoricalTicksLast => {},
        MessageKind::TickByTick => {},
        MessageKind::OrderBound => {},
        MessageKind::CompletedOrder => {},
        MessageKind::CompletedOrdersEnd => {},
        MessageKind::ReplaceFaEnd => {},
        MessageKind::WshMetaData => {},
        MessageKind::WshEventData => {},
        MessageKind::HistoricalSchedule => {},
        MessageKind::UserInfo => {},
    }
}

} // verus!
