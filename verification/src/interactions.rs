//! Command dispatch as a state machine: each transition either ends in a reply or
//! names the one outside request whose outcome decides the next transition.

use crate::models::{
    CommandOption, DiscordInteraction, InteractionData, InteractionKind, InteractionResponse,
    OptionValue, Reply, StockPrice, WatchlistItem,
};
use crate::text::{
    format_hundredths, format_instant, format_percent, grouped_string, grouped_text,
    hundredths_text, instant_text, normalize_symbol, normalized_symbol, parse_amount,
    parsed_amount, percent_text, same_text,
};
use vstd::prelude::*;
use vstd::string::*;

verus! {

/// Conditions that end a request without a command reply.
#[derive(Debug, Clone, Copy, PartialEq, Eq)]
pub enum HandlerError {
    /// A command interaction without a command payload.
    MissingInteractionData,
    /// Neither the member nor the interaction names a user.
    UserIdNotFound,
}

/// Where a request stands: finished with a reply, or waiting for one outside request.
#[derive(Debug, Clone)]
pub enum Step {
    Reply(InteractionResponse),
    FetchWatchlist { user_id: String },
    ValidateSymbol { user_id: String, symbol: String },
    AddToWatchlist { user_id: String, symbol: String },
    RemoveFromWatchlist { user_id: String, symbol: String },
    FetchPrice { symbol: String },
    SetAlertThreshold { user_id: String, symbol: String, threshold: i64 },
}

/// A step over texts.
pub enum StepView {
    Reply(Reply),
    FetchWatchlist { user_id: Seq<char> },
    ValidateSymbol { user_id: Seq<char>, symbol: Seq<char> },
    AddToWatchlist { user_id: Seq<char>, symbol: Seq<char> },
    RemoveFromWatchlist { user_id: Seq<char>, symbol: Seq<char> },
    FetchPrice { symbol: Seq<char> },
    SetAlertThreshold { user_id: Seq<char>, symbol: Seq<char>, threshold: i64 },
}

impl View for Step {
    type V = StepView;

    open spec fn view(&self) -> StepView {
        match *self {
            Step::Reply(r) => StepView::Reply(r@),
            Step::FetchWatchlist { user_id } => StepView::FetchWatchlist { user_id: user_id@ },
            Step::ValidateSymbol { user_id, symbol } => StepView::ValidateSymbol {
                user_id: user_id@,
                symbol: symbol@,
            },
            Step::AddToWatchlist { user_id, symbol } => StepView::AddToWatchlist {
                user_id: user_id@,
                symbol: symbol@,
            },
            Step::RemoveFromWatchlist { user_id, symbol } => StepView::RemoveFromWatchlist {
                user_id: user_id@,
                symbol: symbol@,
            },
            Step::FetchPrice { symbol } => StepView::FetchPrice { symbol: symbol@ },
            Step::SetAlertThreshold { user_id, symbol, threshold } => StepView::SetAlertThreshold {
                user_id: user_id@,
                symbol: symbol@,
                threshold,
            },
        }
    }
}

impl Step {
    /// A step that ends in a reply carries a well-formed one.
    pub open spec fn wf(&self) -> bool {
        match *self {
            Step::Reply(r) => r.wf(),
            _ => true,
        }
    }
}

/// How the outside request of a step ended.
#[derive(Debug, Clone)]
pub enum Outcome {
    Watchlist(Vec<WatchlistItem>),
    SymbolValidity(bool),
    Added,
    Removed(bool),
    Price(StockPrice),
    AlertSet,
    /// The request could not be carried out.
    Failed,
}

/// The user an interaction is attributed to: the member's user before the top-level one.
pub open spec fn invoking_user(interaction: DiscordInteraction) -> Option<Seq<char>> {
    if interaction.member is Some && interaction.member.unwrap().user is Some {
        Some(interaction.member.unwrap().user.unwrap().id@)
    } else if interaction.user is Some {
        Some(interaction.user.unwrap().id@)
    } else {
        None
    }
}

/// Option `i` is the first one named `name`.
pub open spec fn is_first_named(options: Seq<CommandOption>, name: Seq<char>, i: int) -> bool {
    &&& 0 <= i < options.len()
    &&& options[i].name@ == name
    &&& forall|j: int| 0 <= j < i ==> (#[trigger] options[j]).name@ != name
}

/// The text value of the first option named `name`; none where there is no such
/// option or its value is missing or not text.
pub open spec fn option_text(data: InteractionData, name: Seq<char>) -> Option<Seq<char>> {
    match data.options {
        None => None,
        Some(v) => if exists|i: int| is_first_named(v@, name, i) {
            let i = choose|i: int| is_first_named(v@, name, i);
            match v@[i].value {
                Some(OptionValue::Text(t)) => Some(t@),
                _ => None,
            }
        } else {
            None
        },
    }
}

/// The content of an optional text.
pub open spec fn text_of(value: Option<String>) -> Option<Seq<char>> {
    match value {
        Some(t) => Some(t@),
        None => None,
    }
}

/// The normalized symbol option of a command.
pub open spec fn symbol_option(data: InteractionData) -> Option<Seq<char>> {
    match option_text(data, "symbol"@) {
        Some(t) => Some(normalized_symbol(t)),
        None => None,
    }
}

/// Answer to an interaction that is neither a handshake nor a command.
pub open spec fn unsupported_kind_text() -> Seq<char> {
    "❌ 未対応の操作タイプです"@
}

/// Answer to a command outside the vocabulary; it ends in the command's name.
pub open spec fn unknown_command_text(name: Seq<char>) -> Seq<char> {
    "❌ 未知のコマンド: "@ + name
}

/// Answer to a request that could not be handled at all.
pub open spec fn failure_text() -> Seq<char> {
    "❌ 処理中にエラーが発生しました"@
}

/// Answer to a command that lacks its symbol option.
pub open spec fn missing_symbol_text() -> Seq<char> {
    "❌ 銘柄コードを指定してください"@
}

/// Answer to `add` with a symbol that is empty once normalized.
pub open spec fn empty_symbol_text() -> Seq<char> {
    "❌ 有効な銘柄コードを入力してください"@
}

/// Answer to `alert` without a price option.
pub open spec fn missing_price_text() -> Seq<char> {
    "❌ アラート価格を指定してください"@
}

/// Answer to `alert` with a price that is no amount.
pub open spec fn invalid_price_text() -> Seq<char> {
    "❌ 有効な価格を入力してください"@
}

/// Answer to `chart`.
pub open spec fn chart_text() -> Seq<char> {
    "📈 チャート機能は準備中です。しばらくお待ちください。"@
}

/// Answer to `list` for a user who tracks nothing.
pub open spec fn empty_list_text() -> Seq<char> {
    "📊 監視銘柄はありません。\n`/add` コマンドで銘柄を追加してください。"@
}

/// Answer to `list` when the watchlist could not be read.
pub open spec fn list_failed_text() -> Seq<char> {
    "❌ 監視リストの取得に失敗しました"@
}

/// Answer to `add` when the market-data source could not be asked.
pub open spec fn validation_failed_text() -> Seq<char> {
    "❌ 銘柄の検証中にエラーが発生しました"@
}

/// Answer to `alert` when the threshold could not be stored.
pub open spec fn alert_failed_text() -> Seq<char> {
    "❌ アラートの設定に失敗しました"@
}

/// Confirmation of `add`.
pub open spec fn added_text(symbol: Seq<char>) -> Seq<char> {
    "✅ 銘柄 "@ + symbol + " を監視リストに追加しました"@
}

/// Answer to `add` when the entry could not be stored.
pub open spec fn add_failed_text(symbol: Seq<char>) -> Seq<char> {
    "❌ 銘柄 "@ + symbol + " の追加に失敗しました"@
}

/// Answer to `add` for a symbol that does not exist.
pub open spec fn symbol_not_found_text(symbol: Seq<char>) -> Seq<char> {
    "❌ 銘柄コード "@ + symbol + " が見つかりません"@
}

/// Confirmation of `remove`.
pub open spec fn removed_text(symbol: Seq<char>) -> Seq<char> {
    "✅ 銘柄 "@ + symbol + " を監視リストから削除しました"@
}

/// Answer to `remove` for a symbol that was not tracked.
pub open spec fn not_in_watchlist_text(symbol: Seq<char>) -> Seq<char> {
    "❌ 銘柄 "@ + symbol + " は監視リストにありません"@
}

/// Answer to `remove` when the entry could not be deleted.
pub open spec fn remove_failed_text(symbol: Seq<char>) -> Seq<char> {
    "❌ 銘柄 "@ + symbol + " の削除に失敗しました"@
}

/// Answer to `price` when no price could be had.
pub open spec fn price_failed_text(symbol: Seq<char>) -> Seq<char> {
    "❌ 銘柄 "@ + symbol + " の価格取得に失敗しました"@
}

/// Confirmation of `alert`, with the threshold in two decimal places.
pub open spec fn alert_set_text(symbol: Seq<char>, threshold: i64) -> Seq<char> {
    "🔔 銘柄 "@ + symbol + " のアラートを $"@ + hundredths_text(threshold as int)
        + " に設定しました"@
}

/// One line of the watchlist: the symbol, then its alert threshold where it has one.
pub open spec fn item_line(item: WatchlistItem) -> Seq<char> {
    "• "@ + item.symbol@ + " "@ + match item.alert_threshold {
        Some(t) => "(アラート: $"@ + hundredths_text(t as int) + ")"@,
        None => Seq::empty(),
    } + "\n"@
}

/// The lines of the watchlist in order.
pub open spec fn list_lines(items: Seq<WatchlistItem>) -> Seq<char>
    decreases items.len(),
{
    if items.len() == 0 {
        Seq::empty()
    } else {
        list_lines(items.drop_last()) + item_line(items.last())
    }
}

/// The reply to `list`.
pub open spec fn list_reply(items: Seq<WatchlistItem>) -> Reply {
    if items.len() == 0 {
        Reply::EphemeralMessage(empty_list_text())
    } else {
        Reply::Message("📊 あなたの監視銘柄:\n"@ + list_lines(items))
    }
}

/// The change line of a price message: a rising glyph for a change of zero or more,
/// a falling one below zero; nothing where the record has no change.
pub open spec fn change_line(price: StockPrice) -> Seq<char> {
    match (price.change, price.change_percent) {
        (Some(c), Some(p)) => (if c >= 0 {
            "📈"@
        } else {
            "📉"@
        }) + " $"@ + hundredths_text(c as int) + " ("@ + percent_text(p) + "%)\n"@,
        _ => Seq::empty(),
    }
}

/// The volume line of a price message; nothing where the record has no volume.
pub open spec fn volume_line(price: StockPrice) -> Seq<char> {
    match price.volume {
        Some(v) => "📊 出来高: "@ + grouped_text(v as nat) + "\n"@,
        None => Seq::empty(),
    }
}

/// The message for a price record.
pub open spec fn price_text(symbol: Seq<char>, price: StockPrice) -> Seq<char> {
    "📈 **"@ + symbol + "** の現在価格\n"@ + "💰 **$"@ + hundredths_text(price.price as int)
        + "**\n"@ + change_line(price) + volume_line(price) + "🕐 "@ + instant_text(
        price.timestamp,
    )
}

/// First step of `add`, from the normalized symbol option.
pub open spec fn add_step(symbol: Option<Seq<char>>, user_id: Seq<char>) -> StepView {
    match symbol {
        None => StepView::Reply(Reply::EphemeralMessage(missing_symbol_text())),
        Some(s) => if s.len() == 0 {
            StepView::Reply(Reply::EphemeralMessage(empty_symbol_text()))
        } else {
            StepView::ValidateSymbol { user_id, symbol: s }
        },
    }
}

/// First step of `remove`, from the normalized symbol option.
pub open spec fn remove_step(symbol: Option<Seq<char>>, user_id: Seq<char>) -> StepView {
    match symbol {
        None => StepView::Reply(Reply::EphemeralMessage(missing_symbol_text())),
        Some(s) => StepView::RemoveFromWatchlist { user_id, symbol: s },
    }
}

/// First step of `price`, from the normalized symbol option.
pub open spec fn price_step(symbol: Option<Seq<char>>) -> StepView {
    match symbol {
        None => StepView::Reply(Reply::EphemeralMessage(missing_symbol_text())),
        Some(s) => StepView::FetchPrice { symbol: s },
    }
}

/// First step of `alert`, from the normalized symbol option and the price option.
pub open spec fn alert_step(
    symbol: Option<Seq<char>>,
    price: Option<Seq<char>>,
    user_id: Seq<char>,
) -> StepView {
    match symbol {
        None => StepView::Reply(Reply::EphemeralMessage(missing_symbol_text())),
        Some(s) => match price {
            None => StepView::Reply(Reply::EphemeralMessage(missing_price_text())),
            Some(p) => match parsed_amount(p) {
                None => StepView::Reply(Reply::EphemeralMessage(invalid_price_text())),
                Some(v) => StepView::SetAlertThreshold {
                    user_id,
                    symbol: s,
                    threshold: v as i64,
                },
            },
        },
    }
}

/// First step of a command for a known user.
pub open spec fn command_step(data: InteractionData, user_id: Seq<char>) -> StepView {
    let name = data.name@;
    if name == "list"@ {
        StepView::FetchWatchlist { user_id }
    } else if name == "add"@ {
        add_step(symbol_option(data), user_id)
    } else if name == "remove"@ {
        remove_step(symbol_option(data), user_id)
    } else if name == "price"@ {
        price_step(symbol_option(data))
    } else if name == "alert"@ {
        alert_step(symbol_option(data), option_text(data, "price"@), user_id)
    } else if name == "chart"@ {
        StepView::Reply(Reply::EphemeralMessage(chart_text()))
    } else {
        StepView::Reply(Reply::EphemeralMessage(unknown_command_text(name)))
    }
}

/// First step of an interaction.
pub open spec fn first_step(interaction: DiscordInteraction) -> Result<StepView, HandlerError> {
    match interaction.kind() {
        InteractionKind::Handshake => Ok(StepView::Reply(Reply::Acknowledge)),
        InteractionKind::Command => match interaction.data {
            None => Err(HandlerError::MissingInteractionData),
            Some(data) => match invoking_user(interaction) {
                None => Err(HandlerError::UserIdNotFound),
                Some(user_id) => Ok(command_step(data, user_id)),
            },
        },
        InteractionKind::Other => Ok(
            StepView::Reply(Reply::EphemeralMessage(unsupported_kind_text())),
        ),
    }
}

/// The step that follows `step` once its outside request ended with `outcome`.
///
/// A finished step stays as it is. An outcome that does not answer the request of
/// the step ends in the general failure reply.
pub open spec fn next_step(step: StepView, outcome: Outcome) -> StepView {
    match step {
        StepView::Reply(r) => StepView::Reply(r),
        StepView::FetchWatchlist { user_id } => StepView::Reply(
            match outcome {
                Outcome::Watchlist(items) => list_reply(items@),
                Outcome::Failed => Reply::EphemeralMessage(list_failed_text()),
                _ => Reply::EphemeralMessage(failure_text()),
            },
        ),
        StepView::ValidateSymbol { user_id, symbol } => match outcome {
            Outcome::SymbolValidity(true) => StepView::AddToWatchlist { user_id, symbol },
            Outcome::SymbolValidity(false) => StepView::Reply(
                Reply::EphemeralMessage(symbol_not_found_text(symbol)),
            ),
            Outcome::Failed => StepView::Reply(Reply::EphemeralMessage(validation_failed_text())),
            _ => StepView::Reply(Reply::EphemeralMessage(failure_text())),
        },
        StepView::AddToWatchlist { user_id, symbol } => StepView::Reply(
            match outcome {
                Outcome::Added => Reply::Message(added_text(symbol)),
                Outcome::Failed => Reply::EphemeralMessage(add_failed_text(symbol)),
                _ => Reply::EphemeralMessage(failure_text()),
            },
        ),
        StepView::RemoveFromWatchlist { user_id, symbol } => StepView::Reply(
            match outcome {
                Outcome::Removed(true) => Reply::Message(removed_text(symbol)),
                Outcome::Removed(false) => Reply::EphemeralMessage(not_in_watchlist_text(symbol)),
                Outcome::Failed => Reply::EphemeralMessage(remove_failed_text(symbol)),
                _ => Reply::EphemeralMessage(failure_text()),
            },
        ),
        StepView::FetchPrice { symbol } => StepView::Reply(
            match outcome {
                Outcome::Price(price) => Reply::Message(price_text(symbol, price)),
                Outcome::Failed => Reply::EphemeralMessage(price_failed_text(symbol)),
                _ => Reply::EphemeralMessage(failure_text()),
            },
        ),
        StepView::SetAlertThreshold { user_id, symbol, threshold } => StepView::Reply(
            match outcome {
                Outcome::AlertSet => Reply::Message(alert_set_text(symbol, threshold)),
                Outcome::Failed => Reply::EphemeralMessage(alert_failed_text()),
                _ => Reply::EphemeralMessage(failure_text()),
            },
        ),
    }
}

/// `prefix`, `middle` and `suffix` in a row.
fn framed(prefix: &str, middle: &str, suffix: &str) -> (res: String)
    ensures
        res@ == prefix@ + middle@ + suffix@,
{
    let mut text = String::from_str(prefix);
    text.append(middle);
    text.append(suffix);
    text
}

/// A finished step with a message for the invoker only.
fn ephemeral(content: String) -> (res: Step)
    ensures
        res@ == StepView::Reply(Reply::EphemeralMessage(content@)),
        res.wf(),
{
    Step::Reply(InteractionResponse::ephemeral_message(content))
}

/// A finished step with a message for everyone.
fn public(content: String) -> (res: Step)
    ensures
        res@ == StepView::Reply(Reply::Message(content@)),
        res.wf(),
{
    Step::Reply(InteractionResponse::message(content))
}

/// The reply given when a request could not be handled at all.
pub fn failure_reply() -> (res: InteractionResponse)
    ensures
        res.wf(),
        res@ == Reply::EphemeralMessage(failure_text()),
{
    InteractionResponse::ephemeral_message(String::from_str("❌ 処理中にエラーが発生しました"))
}

/// The reply to `list` for the entries of a user.
pub fn list_response(items: &Vec<WatchlistItem>) -> (res: InteractionResponse)
    ensures
        res.wf(),
        res@ == list_reply(items@),
{
    if items.len() == 0 {
        return InteractionResponse::ephemeral_message(
            String::from_str(
                "📊 監視銘柄はありません。\n`/add` コマンドで銘柄を追加してください。",
            ),
        );
    }
    let mut content = String::from_str("📊 あなたの監視銘柄:\n");
    let mut i: usize = 0;
    while i < items.len()
        invariant
            i <= items.len(),
            content@ == "📊 あなたの監視銘柄:\n"@ + list_lines(items@.take(i as int)),
        decreases items.len() - i,
    {
        let ghost before = content@;
        let item = &items[i];
        let mut line = framed("• ", item.symbol.as_str(), " ");
        if let Some(threshold) = item.alert_threshold {
            let amount = format_hundredths(threshold as i128);
            line.append("(アラート: $");
            line.append(amount.as_str());
            line.append(")");
        }
        line.append("\n");
        assert(line@ =~= item_line(*item));
        content.append(line.as_str());
        proof {
            assert(items@.take(i + 1).drop_last() =~= items@.take(i as int));
            assert(items@.take(i + 1).last() == *item);
            assert(content@ =~= "📊 あなたの監視銘柄:\n"@ + list_lines(items@.take(i + 1)));
        }
        i += 1;
    }
    assert(items@.take(i as int) =~= items@);
    InteractionResponse::message(content)
}

/// The message for a price record.
pub fn price_message(symbol: &str, price: &StockPrice) -> (res: String)
    ensures
        res@ == price_text(symbol@, *price),
{
    let mut content = framed("📈 **", symbol, "** の現在価格\n");
    let amount = format_hundredths(price.price as i128);
    content.append("💰 **$");
    content.append(amount.as_str());
    content.append("**\n");
    let ghost head = content@;
    if let (Some(change), Some(percent)) = (price.change, &price.change_percent) {
        let mut line = String::from_str(if change >= 0 { "📈" } else { "📉" });
        let change_amount = format_hundredths(change);
        let percent_amount = format_percent(percent);
        line.append(" $");
        line.append(change_amount.as_str());
        line.append(" (");
        line.append(percent_amount.as_str());
        line.append("%)\n");
        assert(line@ =~= change_line(*price));
        content.append(line.as_str());
    }
    assert(content@ =~= head + change_line(*price));
    if let Some(volume) = price.volume {
        let count = grouped_string(volume);
        let line = framed("📊 出来高: ", count.as_str(), "\n");
        content.append(line.as_str());
    }
    assert(content@ =~= head + change_line(*price) + volume_line(*price));
    let instant = format_instant(price.timestamp);
    content.append("🕐 ");
    content.append(instant.as_str());
    assert(content@ =~= price_text(symbol@, *price));
    content
}

/// The text value of the first option named `name`.
pub fn get_option_value(data: &InteractionData, name: &str) -> (res: Option<String>)
    ensures
        text_of(res) == option_text(*data, name@),
{
    let options = match &data.options {
        Some(v) => v,
        None => {
            return None;
        },
    };
    let mut i: usize = 0;
    while i < options.len()
        invariant
            i <= options.len(),
            data.options == Some(*options),
            forall|j: int| 0 <= j < i ==> (#[trigger] options@[j]).name@ != name@,
        decreases options.len() - i,
    {
        if same_text(options[i].name.as_str(), name) {
            assert(is_first_named(options@, name@, i as int));
            let ghost chosen = choose|k: int| is_first_named(options@, name@, k);
            assert(chosen == i) by {
                if chosen < i {
                    assert(options@[chosen].name@ != name@);
                }
                if chosen > i {
                    assert(options@[i as int].name@ != name@);
                }
            }
            let found = match &options[i].value {
                Some(OptionValue::Text(t)) => Some(t.clone()),
                _ => None,
            };
            return found;
        }
        i += 1;
    }
    assert forall|k: int| !is_first_named(options@, name@, k) by {
        if 0 <= k < options@.len() {
            assert(options@[k].name@ != name@);
        }
    }
    None
}

/// The user an interaction is attributed to.
pub fn get_user_id(interaction: &DiscordInteraction) -> (res: Result<String, HandlerError>)
    ensures
        match invoking_user(*interaction) {
            Some(id) => res is Ok && res.unwrap()@ == id,
            None => res == Err::<String, HandlerError>(HandlerError::UserIdNotFound),
        },
{
    if let Some(member) = &interaction.member {
        if let Some(user) = &member.user {
            return Ok(user.id.clone());
        }
    }
    if let Some(user) = &interaction.user {
        return Ok(user.id.clone());
    }
    Err(HandlerError::UserIdNotFound)
}

/// The normalized symbol option of a command.
fn get_symbol(data: &InteractionData) -> (res: Option<String>)
    ensures
        text_of(res) == symbol_option(*data),
{
    match get_option_value(data, "symbol") {
        Some(raw) => Some(normalize_symbol(raw.as_str())),
        None => None,
    }
}

/// First step of `add`: a missing symbol and one that is empty once normalized are
/// answered at once; any other symbol is validated before it is stored.
pub fn begin_add(symbol: Option<String>, user_id: String) -> (res: Step)
    ensures
        res@ == add_step(text_of(symbol), user_id@),
        res.wf(),
{
    match symbol {
        None => ephemeral(String::from_str("❌ 銘柄コードを指定してください")),
        Some(s) => {
            if s.as_str().unicode_len() == 0 {
                ephemeral(String::from_str("❌ 有効な銘柄コードを入力してください"))
            } else {
                Step::ValidateSymbol { user_id, symbol: s }
            }
        },
    }
}

/// First step of `remove`.
pub fn begin_remove(symbol: Option<String>, user_id: String) -> (res: Step)
    ensures
        res@ == remove_step(text_of(symbol), user_id@),
        res.wf(),
{
    match symbol {
        None => ephemeral(String::from_str("❌ 銘柄コードを指定してください")),
        Some(s) => Step::RemoveFromWatchlist { user_id, symbol: s },
    }
}

/// First step of `price`.
pub fn begin_price(symbol: Option<String>) -> (res: Step)
    ensures
        res@ == price_step(text_of(symbol)),
        res.wf(),
{
    match symbol {
        None => ephemeral(String::from_str("❌ 銘柄コードを指定してください")),
        Some(s) => Step::FetchPrice { symbol: s },
    }
}

/// First step of `alert`: the symbol is looked at before the price, and the price
/// must be a decimal amount.
pub fn begin_alert(symbol: Option<String>, price: Option<String>, user_id: String) -> (res: Step)
    ensures
        res@ == alert_step(text_of(symbol), text_of(price), user_id@),
        res.wf(),
{
    let s = match symbol {
        Some(s) => s,
        None => {
            return ephemeral(String::from_str("❌ 銘柄コードを指定してください"));
        },
    };
    let p = match price {
        Some(p) => p,
        None => {
            return ephemeral(String::from_str("❌ アラート価格を指定してください"));
        },
    };
    match parse_amount(p.as_str()) {
        Some(threshold) => Step::SetAlertThreshold { user_id, symbol: s, threshold },
        None => ephemeral(String::from_str("❌ 有効な価格を入力してください")),
    }
}

/// The dispatcher.
pub struct InteractionHandler {}

impl InteractionHandler {
    /// A dispatcher; it holds no state between requests.
    pub fn new() -> (res: Self) {
        InteractionHandler {  }
    }

    /// First step of an interaction: a handshake is acknowledged at once, a command
    /// is dispatched on its name, anything else is answered as unsupported.
    pub fn handle_interaction(&self, interaction: &DiscordInteraction) -> (res: Result<
        Step,
        HandlerError,
    >)
        ensures
            match first_step(*interaction) {
                Ok(step) => res is Ok && res.unwrap()@ == step && res.unwrap().wf(),
                Err(e) => res matches Err(x) && x == e,
            },
    {
        match interaction.kind() {
            InteractionKind::Handshake => Ok(Step::Reply(InteractionResponse::pong())),
            InteractionKind::Command => self.handle_application_command(interaction),
            InteractionKind::Other => Ok(ephemeral(String::from_str("❌ 未対応の操作タイプです"))),
        }
    }

    /// First step of an interaction, with nothing left to fail: an interaction that
    /// cannot be dispatched is answered with the general failure reply.
    pub fn dispatch(&self, interaction: &DiscordInteraction) -> (res: Step)
        ensures
            res.wf(),
            res@ == match first_step(*interaction) {
                Ok(step) => step,
                Err(_) => StepView::Reply(Reply::EphemeralMessage(failure_text())),
            },
    {
        match self.handle_interaction(interaction) {
            Ok(step) => step,
            Err(_) => Step::Reply(failure_reply()),
        }
    }

    /// First step of a command interaction.
    pub fn handle_application_command(&self, interaction: &DiscordInteraction) -> (res: Result<
        Step,
        HandlerError,
    >)
        ensures
            match interaction.data {
                None => res matches Err(x) && x == HandlerError::MissingInteractionData,
                Some(data) => match invoking_user(*interaction) {
                    None => res matches Err(x) && x == HandlerError::UserIdNotFound,
                    Some(user_id) => res is Ok && res.unwrap()@ == command_step(data, user_id)
                        && res.unwrap().wf(),
                },
            },
    {
        let data = match &interaction.data {
            Some(d) => d,
            None => {
                return Err(HandlerError::MissingInteractionData);
            },
        };
        let user_id = match get_user_id(interaction) {
            Ok(id) => id,
            Err(e) => {
                return Err(e);
            },
        };
        let name = data.name.as_str();
        let step = if same_text(name, "list") {
            Step::FetchWatchlist { user_id }
        } else if same_text(name, "add") {
            begin_add(get_symbol(data), user_id)
        } else if same_text(name, "remove") {
            begin_remove(get_symbol(data), user_id)
        } else if same_text(name, "price") {
            begin_price(get_symbol(data))
        } else if same_text(name, "alert") {
            begin_alert(get_symbol(data), get_option_value(data, "price"), user_id)
        } else if same_text(name, "chart") {
            ephemeral(
                String::from_str("📈 チャート機能は準備中です。しばらくお待ちください。"),
            )
        } else {
            ephemeral(String::from_str("❌ 未知のコマンド: ").concat(name))
        };
        Ok(step)
    }

    /// The step that follows `step` once its outside request ended with `outcome`.
    pub fn resume(&self, step: Step, outcome: Outcome) -> (res: Step)
        ensures
            res@ == next_step(step@, outcome),
            step.wf() ==> res.wf(),
    {
        match step {
            Step::Reply(r) => Step::Reply(r),
            Step::FetchWatchlist { user_id } => match outcome {
                Outcome::Watchlist(items) => Step::Reply(list_response(&items)),
                Outcome::Failed => ephemeral(String::from_str("❌ 監視リストの取得に失敗しました")),
                _ => Step::Reply(failure_reply()),
            },
            Step::ValidateSymbol { user_id, symbol } => match outcome {
                Outcome::SymbolValidity(true) => Step::AddToWatchlist { user_id, symbol },
                Outcome::SymbolValidity(false) => ephemeral(
                    framed("❌ 銘柄コード ", symbol.as_str(), " が見つかりません"),
                ),
                Outcome::Failed => ephemeral(
                    String::from_str("❌ 銘柄の検証中にエラーが発生しました"),
                ),
                _ => Step::Reply(failure_reply()),
            },
            Step::AddToWatchlist { user_id, symbol } => match outcome {
                Outcome::Added => public(
                    framed("✅ 銘柄 ", symbol.as_str(), " を監視リストに追加しました"),
                ),
                Outcome::Failed => ephemeral(
                    framed("❌ 銘柄 ", symbol.as_str(), " の追加に失敗しました"),
                ),
                _ => Step::Reply(failure_reply()),
            },
            Step::RemoveFromWatchlist { user_id, symbol } => match outcome {
                Outcome::Removed(true) => public(
                    framed("✅ 銘柄 ", symbol.as_str(), " を監視リストから削除しました"),
                ),
                Outcome::Removed(false) => ephemeral(
                    framed("❌ 銘柄 ", symbol.as_str(), " は監視リストにありません"),
                ),
                Outcome::Failed => ephemeral(
                    framed("❌ 銘柄 ", symbol.as_str(), " の削除に失敗しました"),
                ),
                _ => Step::Reply(failure_reply()),
            },
            Step::FetchPrice { symbol } => match outcome {
                Outcome::Price(price) => public(price_message(symbol.as_str(), &price)),
                Outcome::Failed => ephemeral(
                    framed("❌ 銘柄 ", symbol.as_str(), " の価格取得に失敗しました"),
                ),
                _ => Step::Reply(failure_reply()),
            },
            Step::SetAlertThreshold { user_id, symbol, threshold } => match outcome {
                Outcome::AlertSet => {
                    let amount = format_hundredths(threshold as i128);
                    let mut text = framed("🔔 銘柄 ", symbol.as_str(), " のアラートを $");
                    text.append(amount.as_str());
                    text.append(" に設定しました");
                    public(text)
                },
                Outcome::Failed => ephemeral(String::from_str("❌ アラートの設定に失敗しました")),
                _ => Step::Reply(failure_reply()),
            },
        }
    }
}

/// `add` and `remove` normalize the symbol in the same way: for one symbol option whose
/// normalized form is not empty, `add` validates and then stores exactly the symbol
/// that `remove` deletes.
pub proof fn lemma_add_and_remove_agree(data: InteractionData, user_id: Seq<char>)
    requires
        option_text(data, "symbol"@) is Some,
        normalized_symbol(option_text(data, "symbol"@).unwrap()).len() > 0,
    ensures
        ({
            let symbol = normalized_symbol(option_text(data, "symbol"@).unwrap());
            &&& add_step(symbol_option(data), user_id) == (StepView::ValidateSymbol {
                user_id,
                symbol,
            })
            &&& next_step(
                StepView::ValidateSymbol { user_id, symbol },
                Outcome::SymbolValidity(true),
            ) == (StepView::AddToWatchlist { user_id, symbol })
            &&& remove_step(symbol_option(data), user_id) == (StepView::RemoveFromWatchlist {
                user_id,
                symbol,
            })
        }),
{
}

/// A command whose name is none of `list`, `add`, `remove`, `price`, `alert` and
/// `chart` is answered, whatever its options, with the unknown-command text that
/// ends in the name itself, visible to the invoker only.
pub proof fn lemma_unknown_command(data: InteractionData, user_id: Seq<char>)
    requires
        data.name@ != "list"@,
        data.name@ != "add"@,
        data.name@ != "remove"@,
        data.name@ != "price"@,
        data.name@ != "alert"@,
        data.name@ != "chart"@,
    ensures
        command_step(data, user_id) == StepView::Reply(
            Reply::EphemeralMessage("❌ 未知のコマンド: "@ + data.name@),
        ),
{
}

/// A handshake is acknowledged whatever else the interaction holds, and the
/// acknowledgment carries no content.
pub proof fn lemma_handshake_acknowledged(interaction: DiscordInteraction)
    requires
        interaction.kind() == InteractionKind::Handshake,
    ensures
        first_step(interaction) == Ok::<StepView, HandlerError>(
            StepView::Reply(Reply::Acknowledge),
        ),
{
}

/// A request is over after at most two outside requests: whatever the outcomes, the
/// second step after any step is a reply, and only the validation of `add` is
/// followed by another request at all.
pub proof fn lemma_two_requests_at_most(step: StepView, first: Outcome, second: Outcome)
    ensures
        next_step(next_step(step, first), second) is Reply,
        !(step is ValidateSymbol) ==> next_step(step, first) is Reply,
{
}

/// A symbol is stored by `add` only after it was found to exist: no interaction
/// starts with the store request, and the only step that leads to it is the
/// validation of that symbol for that user, answered with "exists".
pub proof fn lemma_add_only_after_validation(
    interaction: DiscordInteraction,
    step: StepView,
    outcome: Outcome,
)
    ensures
        first_step(interaction) matches Ok(s) ==> !(s is AddToWatchlist),
        next_step(step, outcome) matches StepView::AddToWatchlist { user_id, symbol } ==> (step
            == (StepView::ValidateSymbol { user_id, symbol }) && outcome == Outcome::SymbolValidity(
            true,
        )),
{
}

} // verus!
