//! Event type definitions: payload structs, the closed payload union, and the
//! envelope that carries a payload through the buses.
//!
//! Prices, sizes and signal strengths are fixed-point integers (thousandths of
//! a unit), so every field is a plain value that contracts can speak about.

use vstd::prelude::*;

verus! {

/// Scale of the fixed-point fields: 1000 steps per whole unit.
pub const FIXED_POINT_SCALE: i64 = 1000;

/// Highest (numerically largest) advisory priority an envelope may carry.
pub const LOWEST_PRIORITY: u8 = 9;

/// Default advisory priority of a published event.
pub const DEFAULT_PRIORITY: u8 = 5;

// ============================================================================
// Market data events
// ============================================================================

/// Raw market data event (tick, quote, trade).
#[derive(Debug)]
pub struct MarketDataEvent {
    pub timestamp: i64,
    pub symbol: String,
    /// Trade price, in thousandths.
    pub price: i64,
    /// Traded volume, in thousandths.
    pub volume: i64,
    pub bid_price: i64,
    pub bid_size: i64,
    pub ask_price: i64,
    pub ask_size: i64,
}

/// Aggregated market data (candles, VWAP, and the like).
#[derive(Debug)]
pub struct AggregatedDataEvent {
    pub timestamp: i64,
    pub symbol: String,
    pub timeframe: String,
    pub open: i64,
    pub high: i64,
    pub low: i64,
    pub close: i64,
    pub volume: i64,
    pub vwap: i64,
}

/// Order book snapshot or update; levels are (price, size) pairs.
#[derive(Debug)]
pub struct OrderBookEvent {
    pub timestamp: i64,
    pub symbol: String,
    pub bids: Vec<(i64, i64)>,
    pub asks: Vec<(i64, i64)>,
}

/// Computed features for strategies, as named fixed-point values.
#[derive(Debug)]
pub struct FeatureEvent {
    pub timestamp: i64,
    pub symbol: String,
    pub features: Vec<(String, i64)>,
}

/// Quantum market analysis features.
#[derive(Debug)]
pub struct QuantumFeatureEvent {
    pub timestamp: i64,
    pub symbol: String,
    pub momentum: i64,
    pub variance: i64,
    pub skewness: i64,
    pub kurtosis: i64,
    pub regime: MarketRegime,
    pub regime_confidence: i64,
    /// Price levels with liquidity walls.
    pub liquidity_walls: Vec<i64>,
    /// Curvature at each wall.
    pub wall_strengths: Vec<i64>,
    pub momentum_uncertainty: i64,
    pub price_std_dev: i64,
    pub validation_passed: Option<bool>,
    pub chi_squared_p_value: Option<i64>,
    pub kl_divergence: Option<i64>,
}

#[derive(Debug, Clone, Copy, PartialEq, Eq, Structural)]
pub enum MarketRegime {
    Consolidation,
    Trending,
    Volatile,
    RangeBound,
}

// ============================================================================
// Strategy & signal events
// ============================================================================

/// Trading signal from a strategy.
#[derive(Debug)]
pub struct SignalEvent {
    pub signal_id: u64,
    pub timestamp: i64,
    pub strategy_id: String,
    pub symbol: String,
    pub direction: SignalDirection,
    /// Strength in thousandths: 0 to 1000.
    pub strength: i64,
    pub target_price: Option<i64>,
    pub stop_loss: Option<i64>,
    pub metadata: Vec<(String, String)>,
}

#[derive(Debug, Clone, Copy, PartialEq, Eq, Structural)]
pub enum SignalDirection {
    Long,
    Short,
    Neutral,
}

/// ML model prediction.
#[derive(Debug, Clone)]
pub struct PredictionEvent {
    pub timestamp: i64,
    pub model_id: String,
    pub symbol: String,
    pub predicted_return: i64,
    pub confidence: i64,
}

/// Signal approved by risk management.
#[derive(Debug, Clone)]
pub struct ApprovedSignalEvent {
    pub signal_id: u64,
    pub timestamp: i64,
    pub original_signal_id: u64,
    pub approved_size: i64,
}

/// Signal rejected by risk management.
#[derive(Debug, Clone)]
pub struct RejectedSignalEvent {
    pub signal_id: u64,
    pub timestamp: i64,
    pub original_signal_id: u64,
    pub rejection_reason: String,
}

// ============================================================================
// Execution events
// ============================================================================

/// Order submitted to market.
#[derive(Debug)]
pub struct OrderEvent {
    pub order_id: u64,
    pub signal_id: Option<u64>,
    pub timestamp: i64,
    pub symbol: String,
    pub side: OrderSide,
    pub order_type: OrderType,
    pub quantity: i64,
    pub price: Option<i64>,
}

#[derive(Debug, Clone, Copy, PartialEq, Eq, Structural)]
pub enum OrderSide {
    Buy,
    Sell,
}

#[derive(Debug, Clone, Copy, PartialEq, Eq, Structural)]
pub enum OrderType {
    Market,
    Limit,
    Stop,
    StopLimit,
}

/// Order filled (partially or completely).
#[derive(Debug)]
pub struct FillEvent {
    pub fill_id: u64,
    pub order_id: u64,
    pub signal_id: Option<u64>,
    pub timestamp: i64,
    pub symbol: String,
    pub side: OrderSide,
    pub filled_quantity: i64,
    pub fill_price: i64,
    pub commission: i64,
    pub slippage_bps: i64,
}

/// Order status update.
#[derive(Debug, Clone, Copy)]
pub struct OrderUpdateEvent {
    pub order_id: u64,
    pub timestamp: i64,
    pub status: OrderStatus,
    pub filled_quantity: i64,
    pub remaining_quantity: i64,
}

#[derive(Debug, Clone, Copy, PartialEq, Eq, Structural)]
pub enum OrderStatus {
    Pending,
    Submitted,
    PartiallyFilled,
    Filled,
    Cancelled,
    Rejected,
}

// ============================================================================
// Metrics & performance events
// ============================================================================

/// Performance metrics update.
#[derive(Debug)]
pub struct MetricsEvent {
    pub timestamp: i64,
    pub strategy_id: Option<String>,
    pub pnl: i64,
    pub sharpe_ratio: i64,
    pub max_drawdown: i64,
    pub win_rate: i64,
    pub total_trades: u64,
}

/// System performance metrics.
#[derive(Debug, Clone, Copy)]
pub struct PerformanceEvent {
    pub timestamp: i64,
    pub cpu_usage: i64,
    pub memory_usage: i64,
    pub event_latency_us: i64,
    pub events_per_second: i64,
}

// ============================================================================
// System events
// ============================================================================

/// Configuration change.
#[derive(Debug, Clone)]
pub struct ConfigEvent {
    pub timestamp: i64,
    pub config_key: String,
    pub old_value: Option<String>,
    pub new_value: String,
}

/// System health check.
#[derive(Debug)]
pub struct HealthEvent {
    pub timestamp: i64,
    pub component: String,
    pub status: HealthStatus,
    pub message: String,
}

#[derive(Debug, Clone, Copy, PartialEq, Eq, Structural)]
pub enum HealthStatus {
    Healthy,
    Degraded,
    Unhealthy,
}

/// Error event.
#[derive(Debug)]
pub struct ErrorEvent {
    pub timestamp: i64,
    pub component: String,
    pub error_type: String,
    pub message: String,
    pub context: Vec<(String, String)>,
}

/// Research analysis event; results are carried as rendered text.
#[derive(Debug, Clone)]
pub struct ResearchEvent {
    pub timestamp: i64,
    pub analysis_type: String,
    pub results: Vec<(String, String)>,
    pub confidence: i64,
}

/// Escape hatch for payloads outside the closed set of known kinds.
#[derive(Debug)]
pub struct CustomEvent {
    /// Stable type-name string under which the dynamic bus routes this payload.
    pub kind: String,
    /// Opaque payload body, carried as text.
    pub body: String,
}

// ============================================================================
// The closed payload union
// ============================================================================

/// Every payload the dynamic bus can carry: the closed set of known event
/// kinds, plus one escape-hatch variant for opaque payloads.
#[derive(Debug)]
pub enum EventPayload {
    MarketData(MarketDataEvent),
    AggregatedData(AggregatedDataEvent),
    OrderBook(OrderBookEvent),
    Feature(FeatureEvent),
    Quantum(QuantumFeatureEvent),
    Signal(SignalEvent),
    Order(OrderEvent),
    Fill(FillEvent),
    OrderUpdate(OrderUpdateEvent),
    Metrics(MetricsEvent),
    Performance(PerformanceEvent),
    Health(HealthEvent),
    SystemError(ErrorEvent),
    Custom(CustomEvent),
}

impl EventPayload {
    /// The stable type-name string of this payload, as a mathematical value.
    pub open spec fn kind_name_spec(self) -> Seq<char> {
        self@.kind_name_spec()
    }

    /// The stable type-name string under which the dynamic bus routes this
    /// payload; the fixed subscription keys of the known kinds are part of the
    /// bus contract.
    pub fn kind_name<'a>(&'a self) -> (r: &'a str)
        ensures
            r@ == self.kind_name_spec(),
    {
        match self {
            EventPayload::MarketData(_) => "MarketData",
            EventPayload::AggregatedData(_) => "AggregatedData",
            EventPayload::OrderBook(_) => "OrderBook",
            EventPayload::Feature(_) => "Feature",
            EventPayload::Quantum(_) => "Quantum",
            EventPayload::Signal(_) => "Signal",
            EventPayload::Order(_) => "Order",
            EventPayload::Fill(_) => "Fill",
            EventPayload::OrderUpdate(_) => "OrderUpdate",
            EventPayload::Metrics(_) => "Metrics",
            EventPayload::Performance(_) => "Performance",
            EventPayload::Health(_) => "Health",
            EventPayload::SystemError(_) => "Error",
            EventPayload::Custom(c) => c.kind.as_str(),
        }
    }
}

// ============================================================================
// The envelope
// ============================================================================

/// Base event wrapper with metadata. The id is assigned by the publishing
/// bus from its own monotonic counter; the payload never changes after
/// construction.
#[derive(Debug)]
pub struct EventEnvelope {
    /// Unique event id: monotonic and process-scoped, never reused.
    pub id: u64,
    /// Timestamp when the event was created, in nanoseconds.
    pub timestamp_ns: i64,
    /// Advisory event priority: 0 (highest) to 9 (lowest).
    pub priority: u8,
    /// Event payload.
    pub event: EventPayload,
}

impl EventEnvelope {
    /// An envelope is well formed when its priority lies in the advisory band.
    pub open spec fn wf(self) -> bool {
        self.priority <= LOWEST_PRIORITY
    }

    /// Wrap a payload with its metadata. The caller supplies the id and the
    /// creation timestamp, so that the id counter stays explicit and testing
    /// stays deterministic.
    pub fn new(id: u64, timestamp_ns: i64, event: EventPayload, priority: u8) -> (r: Self)
        requires
            priority <= LOWEST_PRIORITY,
        ensures
            r.id == id,
            r.timestamp_ns == timestamp_ns,
            r.priority == priority,
            r.event == event,
            r.wf(),
    {
        EventEnvelope { id, timestamp_ns, priority, event }
    }
}

// ============================================================================
// Capability traits
// ============================================================================

/// Base capability every event type offers the dynamic bus: a stable
/// type-name string and an advisory priority.
pub trait Event {
    fn event_type(&self) -> &'static str;

    fn priority(&self) -> (p: u8)
        ensures
            p <= LOWEST_PRIORITY,
    ;
}

/// Event type classification used by market-related events.
#[derive(Debug, Clone, Copy, PartialEq, Eq, Structural)]
pub enum EventType {
    Trade,
    Quote,
    OrderBook,
    Feature,
    Signal,
    Custom,
}

/// Capability of market-related events: a timestamp, an optional symbol and a
/// classification, used by the replay engine to order envelopes in time.
pub trait MarketEvent: Event {
    fn timestamp(&self) -> i64;

    fn symbol<'a>(&'a self) -> Option<&'a str>;

    fn market_event_type(&self) -> EventType;
}

impl Event for MarketDataEvent {
    fn event_type(&self) -> &'static str {
        "MarketData"
    }

    fn priority(&self) -> (p: u8) {
        DEFAULT_PRIORITY
    }
}

impl MarketEvent for MarketDataEvent {
    fn timestamp(&self) -> i64 {
        self.timestamp
    }

    fn symbol<'a>(&'a self) -> Option<&'a str> {
        Some(self.symbol.as_str())
    }

    fn market_event_type(&self) -> EventType {
        EventType::Trade
    }
}

impl Event for SignalEvent {
    fn event_type(&self) -> &'static str {
        "Signal"
    }

    fn priority(&self) -> (p: u8) {
        DEFAULT_PRIORITY
    }
}

impl Event for OrderEvent {
    fn event_type(&self) -> &'static str {
        "Order"
    }

    fn priority(&self) -> (p: u8) {
        DEFAULT_PRIORITY
    }
}

impl Event for FillEvent {
    fn event_type(&self) -> &'static str {
        "Fill"
    }

    fn priority(&self) -> (p: u8) {
        DEFAULT_PRIORITY
    }
}

impl Event for FeatureEvent {
    fn event_type(&self) -> &'static str {
        "Feature"
    }

    fn priority(&self) -> (p: u8) {
        DEFAULT_PRIORITY
    }
}

// ============================================================================
// Mathematical views
//
// Vectors inside a payload are abstracted to sequences, so that a copied
// payload can be stated equal to its source. Structs without vector fields
// are their own view.
// ============================================================================

/// View of an order book event: levels as sequences.
#[verifier::ext_equal]
pub struct OrderBookEventView {
    pub timestamp: i64,
    pub symbol: String,
    pub bids: Seq<(i64, i64)>,
    pub asks: Seq<(i64, i64)>,
}

impl View for OrderBookEvent {
    type V = OrderBookEventView;

    open spec fn view(&self) -> OrderBookEventView {
        OrderBookEventView {
            timestamp: self.timestamp,
            symbol: self.symbol,
            bids: self.bids@,
            asks: self.asks@,
        }
    }
}

/// View of a feature event: the named values as a sequence.
#[verifier::ext_equal]
pub struct FeatureEventView {
    pub timestamp: i64,
    pub symbol: String,
    pub features: Seq<(String, i64)>,
}

impl View for FeatureEvent {
    type V = FeatureEventView;

    open spec fn view(&self) -> FeatureEventView {
        FeatureEventView {
            timestamp: self.timestamp,
            symbol: self.symbol,
            features: self.features@,
        }
    }
}

/// View of a quantum feature event: wall levels as sequences.
#[verifier::ext_equal]
pub struct QuantumFeatureEventView {
    pub timestamp: i64,
    pub symbol: String,
    pub momentum: i64,
    pub variance: i64,
    pub skewness: i64,
    pub kurtosis: i64,
    pub regime: MarketRegime,
    pub regime_confidence: i64,
    pub liquidity_walls: Seq<i64>,
    pub wall_strengths: Seq<i64>,
    pub momentum_uncertainty: i64,
    pub price_std_dev: i64,
    pub validation_passed: Option<bool>,
    pub chi_squared_p_value: Option<i64>,
    pub kl_divergence: Option<i64>,
}

impl View for QuantumFeatureEvent {
    type V = QuantumFeatureEventView;

    open spec fn view(&self) -> QuantumFeatureEventView {
        QuantumFeatureEventView {
            timestamp: self.timestamp,
            symbol: self.symbol,
            momentum: self.momentum,
            variance: self.variance,
            skewness: self.skewness,
            kurtosis: self.kurtosis,
            regime: self.regime,
            regime_confidence: self.regime_confidence,
            liquidity_walls: self.liquidity_walls@,
            wall_strengths: self.wall_strengths@,
            momentum_uncertainty: self.momentum_uncertainty,
            price_std_dev: self.price_std_dev,
            validation_passed: self.validation_passed,
            chi_squared_p_value: self.chi_squared_p_value,
            kl_divergence: self.kl_divergence,
        }
    }
}

/// View of a signal event: metadata as a sequence of pairs.
#[verifier::ext_equal]
pub struct SignalEventView {
    pub signal_id: u64,
    pub timestamp: i64,
    pub strategy_id: String,
    pub symbol: String,
    pub direction: SignalDirection,
    pub strength: i64,
    pub target_price: Option<i64>,
    pub stop_loss: Option<i64>,
    pub metadata: Seq<(String, String)>,
}

impl View for SignalEvent {
    type V = SignalEventView;

    open spec fn view(&self) -> SignalEventView {
        SignalEventView {
            signal_id: self.signal_id,
            timestamp: self.timestamp,
            strategy_id: self.strategy_id,
            symbol: self.symbol,
            direction: self.direction,
            strength: self.strength,
            target_price: self.target_price,
            stop_loss: self.stop_loss,
            metadata: self.metadata@,
        }
    }
}

/// View of an error event: context as a sequence of pairs.
#[verifier::ext_equal]
pub struct ErrorEventView {
    pub timestamp: i64,
    pub component: String,
    pub error_type: String,
    pub message: String,
    pub context: Seq<(String, String)>,
}

impl View for ErrorEvent {
    type V = ErrorEventView;

    open spec fn view(&self) -> ErrorEventView {
        ErrorEventView {
            timestamp: self.timestamp,
            component: self.component,
            error_type: self.error_type,
            message: self.message,
            context: self.context@,
        }
    }
}

/// View of a payload: each known kind with its own view; structs without
/// vector fields stand for themselves.
#[verifier::ext_equal]
pub enum EventPayloadView {
    MarketData(MarketDataEvent),
    AggregatedData(AggregatedDataEvent),
    OrderBook(OrderBookEventView),
    Feature(FeatureEventView),
    Quantum(QuantumFeatureEventView),
    Signal(SignalEventView),
    Order(OrderEvent),
    Fill(FillEvent),
    OrderUpdate(OrderUpdateEvent),
    Metrics(MetricsEvent),
    Performance(PerformanceEvent),
    Health(HealthEvent),
    SystemError(ErrorEventView),
    Custom(CustomEvent),
}

impl EventPayloadView {
    /// The stable type-name string of a payload, at the view level.
    pub open spec fn kind_name_spec(self) -> Seq<char> {
        match self {
            EventPayloadView::MarketData(_) => "MarketData"@,
            EventPayloadView::AggregatedData(_) => "AggregatedData"@,
            EventPayloadView::OrderBook(_) => "OrderBook"@,
            EventPayloadView::Feature(_) => "Feature"@,
            EventPayloadView::Quantum(_) => "Quantum"@,
            EventPayloadView::Signal(_) => "Signal"@,
            EventPayloadView::Order(_) => "Order"@,
            EventPayloadView::Fill(_) => "Fill"@,
            EventPayloadView::OrderUpdate(_) => "OrderUpdate"@,
            EventPayloadView::Metrics(_) => "Metrics"@,
            EventPayloadView::Performance(_) => "Performance"@,
            EventPayloadView::Health(_) => "Health"@,
            EventPayloadView::SystemError(_) => "Error"@,
            EventPayloadView::Custom(c) => c.kind@,
        }
    }
}

impl View for EventPayload {
    type V = EventPayloadView;

    open spec fn view(&self) -> EventPayloadView {
        match self {
            EventPayload::MarketData(e) => EventPayloadView::MarketData(*e),
            EventPayload::AggregatedData(e) => EventPayloadView::AggregatedData(*e),
            EventPayload::OrderBook(e) => EventPayloadView::OrderBook(e@),
            EventPayload::Feature(e) => EventPayloadView::Feature(e@),
            EventPayload::Quantum(e) => EventPayloadView::Quantum(e@),
            EventPayload::Signal(e) => EventPayloadView::Signal(e@),
            EventPayload::Order(e) => EventPayloadView::Order(*e),
            EventPayload::Fill(e) => EventPayloadView::Fill(*e),
            EventPayload::OrderUpdate(e) => EventPayloadView::OrderUpdate(*e),
            EventPayload::Metrics(e) => EventPayloadView::Metrics(*e),
            EventPayload::Performance(e) => EventPayloadView::Performance(*e),
            EventPayload::Health(e) => EventPayloadView::Health(*e),
            EventPayload::SystemError(e) => EventPayloadView::SystemError(e@),
            EventPayload::Custom(e) => EventPayloadView::Custom(*e),
        }
    }
}

/// View of an envelope: the metadata with the payload's view.
#[verifier::ext_equal]
pub struct EventEnvelopeView {
    pub id: u64,
    pub timestamp_ns: i64,
    pub priority: u8,
    pub event: EventPayloadView,
}

impl EventEnvelopeView {
    /// An envelope view is well formed when its priority lies in the
    /// advisory band.
    pub open spec fn wf(self) -> bool {
        self.priority <= LOWEST_PRIORITY
    }
}

impl View for EventEnvelope {
    type V = EventEnvelopeView;

    open spec fn view(&self) -> EventEnvelopeView {
        EventEnvelopeView {
            id: self.id,
            timestamp_ns: self.timestamp_ns,
            priority: self.priority,
            event: self.event@,
        }
    }
}

/// The views of a sequence of envelopes, in order.
pub open spec fn env_seq_view(s: Seq<EventEnvelope>) -> Seq<EventEnvelopeView> {
    s.map_values(|e: EventEnvelope| e@)
}

impl Event for AggregatedDataEvent {
    fn event_type(&self) -> &'static str {
        "AggregatedData"
    }

    fn priority(&self) -> (p: u8) {
        DEFAULT_PRIORITY
    }
}

impl Event for OrderBookEvent {
    fn event_type(&self) -> &'static str {
        "OrderBook"
    }

    fn priority(&self) -> (p: u8) {
        DEFAULT_PRIORITY
    }
}

impl Event for QuantumFeatureEvent {
    fn event_type(&self) -> &'static str {
        "Quantum"
    }

    fn priority(&self) -> (p: u8) {
        DEFAULT_PRIORITY
    }
}

impl Event for OrderUpdateEvent {
    fn event_type(&self) -> &'static str {
        "OrderUpdate"
    }

    fn priority(&self) -> (p: u8) {
        DEFAULT_PRIORITY
    }
}

impl Event for MetricsEvent {
    fn event_type(&self) -> &'static str {
        "Metrics"
    }

    fn priority(&self) -> (p: u8) {
        DEFAULT_PRIORITY
    }
}

impl Event for PerformanceEvent {
    fn event_type(&self) -> &'static str {
        "Performance"
    }

    fn priority(&self) -> (p: u8) {
        DEFAULT_PRIORITY
    }
}

impl Event for HealthEvent {
    fn event_type(&self) -> &'static str {
        "Health"
    }

    fn priority(&self) -> (p: u8) {
        DEFAULT_PRIORITY
    }
}

impl Event for ErrorEvent {
    fn event_type(&self) -> &'static str {
        "Error"
    }

    fn priority(&self) -> (p: u8) {
        DEFAULT_PRIORITY
    }
}

// ============================================================================
// Cloning with exact contracts
// ============================================================================

/// Copy of a string that is known to equal its source.
pub fn clone_string(s: &String) -> (r: String)
    ensures
        r == *s,
{
    s.clone()
}

/// Copy of an optional string that is known to equal its source.
pub fn clone_opt_string(s: &Option<String>) -> (r: Option<String>)
    ensures
        r == *s,
{
    match s {
        Some(v) => Some(v.clone()),
        None => None,
    }
}

/// Copy of a vector of copyable items that is known to equal its source.
pub fn clone_vec_copy<T: Copy>(v: &Vec<T>) -> (r: Vec<T>)
    ensures
        r@ == v@,
{
    let mut r: Vec<T> = Vec::new();
    let mut i: usize = 0;
    while i < v.len()
        invariant
            i <= v.len(),
            r@ == v@.subrange(0, i as int),
        decreases v.len() - i,
    {
        r.push(v[i]);
        i = i + 1;
    }
    assert(r@ =~= v@);
    r
}

/// Copy of a vector of string pairs that is known to equal its source.
pub fn clone_string_pairs(v: &Vec<(String, String)>) -> (r: Vec<(String, String)>)
    ensures
        r@ == v@,
{
    let mut r: Vec<(String, String)> = Vec::new();
    let mut i: usize = 0;
    while i < v.len()
        invariant
            i <= v.len(),
            r@ == v@.subrange(0, i as int),
        decreases v.len() - i,
    {
        let pair = (v[i].0.clone(), v[i].1.clone());
        assert(pair == v@[i as int]);
        r.push(pair);
        i = i + 1;
    }
    assert(r@ =~= v@);
    r
}

/// Copy of a vector of named fixed-point values that is known to equal its
/// source.
pub fn clone_named_values(v: &Vec<(String, i64)>) -> (r: Vec<(String, i64)>)
    ensures
        r@ == v@,
{
    let mut r: Vec<(String, i64)> = Vec::new();
    let mut i: usize = 0;
    while i < v.len()
        invariant
            i <= v.len(),
            r@ == v@.subrange(0, i as int),
        decreases v.len() - i,
    {
        let pair = (v[i].0.clone(), v[i].1);
        assert(pair == v@[i as int]);
        r.push(pair);
        i = i + 1;
    }
    assert(r@ =~= v@);
    r
}

impl Clone for MarketDataEvent {
    fn clone(&self) -> (r: Self)
        ensures
            r == *self,
    {
        MarketDataEvent {
            timestamp: self.timestamp,
            symbol: self.symbol.clone(),
            price: self.price,
            volume: self.volume,
            bid_price: self.bid_price,
            bid_size: self.bid_size,
            ask_price: self.ask_price,
            ask_size: self.ask_size,
        }
    }
}

impl Clone for AggregatedDataEvent {
    fn clone(&self) -> (r: Self)
        ensures
            r == *self,
    {
        AggregatedDataEvent {
            timestamp: self.timestamp,
            symbol: self.symbol.clone(),
            timeframe: self.timeframe.clone(),
            open: self.open,
            high: self.high,
            low: self.low,
            close: self.close,
            volume: self.volume,
            vwap: self.vwap,
        }
    }
}

impl Clone for OrderBookEvent {
    fn clone(&self) -> (r: Self)
        ensures
            r@ == self@,
    {
        OrderBookEvent {
            timestamp: self.timestamp,
            symbol: self.symbol.clone(),
            bids: clone_vec_copy(&self.bids),
            asks: clone_vec_copy(&self.asks),
        }
    }
}

impl Clone for FeatureEvent {
    fn clone(&self) -> (r: Self)
        ensures
            r@ == self@,
    {
        FeatureEvent {
            timestamp: self.timestamp,
            symbol: self.symbol.clone(),
            features: clone_named_values(&self.features),
        }
    }
}

impl Clone for QuantumFeatureEvent {
    fn clone(&self) -> (r: Self)
        ensures
            r@ == self@,
    {
        QuantumFeatureEvent {
            timestamp: self.timestamp,
            symbol: self.symbol.clone(),
            momentum: self.momentum,
            variance: self.variance,
            skewness: self.skewness,
            kurtosis: self.kurtosis,
            regime: self.regime,
            regime_confidence: self.regime_confidence,
            liquidity_walls: clone_vec_copy(&self.liquidity_walls),
            wall_strengths: clone_vec_copy(&self.wall_strengths),
            momentum_uncertainty: self.momentum_uncertainty,
            price_std_dev: self.price_std_dev,
            validation_passed: self.validation_passed,
            chi_squared_p_value: self.chi_squared_p_value,
            kl_divergence: self.kl_divergence,
        }
    }
}

impl Clone for SignalEvent {
    fn clone(&self) -> (r: Self)
        ensures
            r@ == self@,
    {
        SignalEvent {
            signal_id: self.signal_id,
            timestamp: self.timestamp,
            strategy_id: self.strategy_id.clone(),
            symbol: self.symbol.clone(),
            direction: self.direction,
            strength: self.strength,
            target_price: self.target_price,
            stop_loss: self.stop_loss,
            metadata: clone_string_pairs(&self.metadata),
        }
    }
}

impl Clone for OrderEvent {
    fn clone(&self) -> (r: Self)
        ensures
            r == *self,
    {
        OrderEvent {
            order_id: self.order_id,
            signal_id: self.signal_id,
            timestamp: self.timestamp,
            symbol: self.symbol.clone(),
            side: self.side,
            order_type: self.order_type,
            quantity: self.quantity,
            price: self.price,
        }
    }
}

impl Clone for FillEvent {
    fn clone(&self) -> (r: Self)
        ensures
            r == *self,
    {
        FillEvent {
            fill_id: self.fill_id,
            order_id: self.order_id,
            signal_id: self.signal_id,
            timestamp: self.timestamp,
            symbol: self.symbol.clone(),
            side: self.side,
            filled_quantity: self.filled_quantity,
            fill_price: self.fill_price,
            commission: self.commission,
            slippage_bps: self.slippage_bps,
        }
    }
}

impl Clone for MetricsEvent {
    fn clone(&self) -> (r: Self)
        ensures
            r == *self,
    {
        MetricsEvent {
            timestamp: self.timestamp,
            strategy_id: clone_opt_string(&self.strategy_id),
            pnl: self.pnl,
            sharpe_ratio: self.sharpe_ratio,
            max_drawdown: self.max_drawdown,
            win_rate: self.win_rate,
            total_trades: self.total_trades,
        }
    }
}

impl Clone for HealthEvent {
    fn clone(&self) -> (r: Self)
        ensures
            r == *self,
    {
        HealthEvent {
            timestamp: self.timestamp,
            component: self.component.clone(),
            status: self.status,
            message: self.message.clone(),
        }
    }
}

impl Clone for ErrorEvent {
    fn clone(&self) -> (r: Self)
        ensures
            r@ == self@,
    {
        ErrorEvent {
            timestamp: self.timestamp,
            component: self.component.clone(),
            error_type: self.error_type.clone(),
            message: self.message.clone(),
            context: clone_string_pairs(&self.context),
        }
    }
}

impl Clone for CustomEvent {
    fn clone(&self) -> (r: Self)
        ensures
            r == *self,
    {
        CustomEvent { kind: self.kind.clone(), body: self.body.clone() }
    }
}

impl Clone for EventPayload {
    fn clone(&self) -> (r: Self)
        ensures
            r@ == self@,
    {
        match self {
            EventPayload::MarketData(e) => EventPayload::MarketData(e.clone()),
            EventPayload::AggregatedData(e) => EventPayload::AggregatedData(e.clone()),
            EventPayload::OrderBook(e) => EventPayload::OrderBook(e.clone()),
            EventPayload::Feature(e) => EventPayload::Feature(e.clone()),
            EventPayload::Quantum(e) => EventPayload::Quantum(e.clone()),
            EventPayload::Signal(e) => EventPayload::Signal(e.clone()),
            EventPayload::Order(e) => EventPayload::Order(e.clone()),
            EventPayload::Fill(e) => EventPayload::Fill(e.clone()),
            EventPayload::OrderUpdate(e) => EventPayload::OrderUpdate(*e),
            EventPayload::Metrics(e) => EventPayload::Metrics(e.clone()),
            EventPayload::Performance(e) => EventPayload::Performance(*e),
            EventPayload::Health(e) => EventPayload::Health(e.clone()),
            EventPayload::SystemError(e) => EventPayload::SystemError(e.clone()),
            EventPayload::Custom(e) => EventPayload::Custom(e.clone()),
        }
    }
}

impl Clone for EventEnvelope {
    fn clone(&self) -> (r: Self)
        ensures
            r@ == self@,
    {
        EventEnvelope {
            id: self.id,
            timestamp_ns: self.timestamp_ns,
            priority: self.priority,
            event: self.event.clone(),
        }
    }
}

} // verus!
