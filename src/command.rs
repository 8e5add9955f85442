use crate::events::ChannelKind;
use vstd::prelude::*;
use vstd::string::*;

verus! {

/// Whether a symbol names a trading pair or a funding currency.
#[derive(Debug, Clone, Copy, PartialEq, Eq, Structural)]
pub enum EventType {
    Funding,
    Trading,
}

/// The JSON string literal, quotes and escapes included, that a text is written as.
pub uninterp spec fn json_quoted(s: Seq<char>) -> Seq<char>;

/// A text that JSON writes without escapes: no quote, no backslash, no control character.
pub open spec fn needs_no_escape(s: Seq<char>) -> bool {
    forall|i: int| 0 <= i < s.len() ==> s[i] != '"' && s[i] != '\\' && (s[i] as u32) >= 0x20
}

/// Relies on the `Display` of `serde_json::Value::String`: the literal depends
/// on the text alone, and a text with nothing to escape is written between quotes as it is.
#[verifier::external_body]
fn quote(s: &str) -> (r: String)
    ensures
        r@ == json_quoted(s@),
        needs_no_escape(s@) ==> r@ == literal(s@),
{
    serde_json::Value::String(s.to_string()).to_string()
}

/// Two texts with nothing to escape make one with nothing to escape.
pub proof fn plain_concat(a: Seq<char>, b: Seq<char>)
    requires
        needs_no_escape(a),
        needs_no_escape(b),
    ensures
        needs_no_escape(a + b),
{
    assert forall|i: int| 0 <= i < (a + b).len() implies (a + b)[i] != '"' && (a + b)[i] != '\\' && ((
    a + b)[i] as u32) >= 0x20 by {
        if i >= a.len() {
            assert((a + b)[i] == b[i - a.len()]);
        }
    }
}

/// A text between quotes, as it is.
pub open spec fn literal(s: Seq<char>) -> Seq<char> {
    seq!['"'] + s + seq!['"']
}

/// The JSON literal of a text: with `plain`, the text between quotes as it is
/// (which is what JSON writes for a text with nothing to escape).
pub open spec fn quoted(s: Seq<char>, plain: bool) -> Seq<char> {
    if plain {
        literal(s)
    } else {
        json_quoted(s)
    }
}

/// Whether a character is a lowercase hexadecimal digit.
pub open spec fn is_hex_digit(c: char) -> bool {
    ('0' <= c && c <= '9') || ('a' <= c && c <= 'f')
}

/// The lowercase hexadecimal HMAC-SHA384 of a message under a key.
pub uninterp spec fn hmac_sha384_hex(key: Seq<char>, msg: Seq<char>) -> Seq<char>;

/// Relies on hmac's `Hmac<Sha384>` (any key length is accepted) and on
/// `hex::encode`: the signature depends on the key and the message alone, and
/// is written in lowercase hexadecimal digits.
#[verifier::external_body]
fn sign_payload(secret: &str, payload: &str) -> (r: String)
    ensures
        r@ == hmac_sha384_hex(secret@, payload@),
        forall|i: int| 0 <= i < r@.len() ==> is_hex_digit(#[trigger] r@[i]),
{
    let mut mac = <hmac::Hmac<sha2::Sha384> as hmac::Mac>::new_from_slice(secret.as_bytes())
        .expect("HMAC takes keys of any length");
    hmac::Mac::update(&mut mac, payload.as_bytes());
    hex::encode(hmac::Mac::finalize(mac).into_bytes())
}

/// The prefix that marks a trading pair or a funding currency.
pub open spec fn prefix(et: EventType) -> Seq<char> {
    match et {
        EventType::Funding => seq!['f'],
        EventType::Trading => seq!['t'],
    }
}

/// The `channel` value that a subscription to a channel kind carries.
pub open spec fn channel_name(k: ChannelKind) -> Seq<char> {
    match k {
        ChannelKind::Ticker => "ticker"@,
        ChannelKind::Trades => "trades"@,
        ChannelKind::Candles => "candles"@,
        ChannelKind::Book => "book"@,
        ChannelKind::RawBook => "book"@,
    }
}

/// The decimal digit for `d < 10`.
pub open spec fn digit_char(d: nat) -> char {
    if d == 0 { '0' } else if d == 1 { '1' } else if d == 2 { '2' } else if d == 3 { '3' }
    else if d == 4 { '4' } else if d == 5 { '5' } else if d == 6 { '6' } else if d == 7 { '7' }
    else if d == 8 { '8' } else { '9' }
}

/// The decimal numeral of `n`, without leading zeros.
pub open spec fn decimal(n: nat) -> Seq<char>
    decreases n,
{
    if n < 10 {
        seq![digit_char(n)]
    } else {
        decimal(n / 10) + seq![digit_char(n % 10)]
    }
}

/// The ticker subscription for a prefixed symbol.
pub open spec fn ticker_text(symbol: Seq<char>, plain: bool) -> Seq<char> {
    "{\"event\":\"subscribe\",\"channel\":\"ticker\",\"symbol\":"@ + quoted(symbol, plain) + "}"@
}

/// The trades subscription for a prefixed symbol.
pub open spec fn trades_text(symbol: Seq<char>, plain: bool) -> Seq<char> {
    "{\"event\":\"subscribe\",\"channel\":\"trades\",\"symbol\":"@ + quoted(symbol, plain) + "}"@
}

/// The candle key for a trading pair and a timeframe.
pub open spec fn candles_key(symbol: Seq<char>, timeframe: Seq<char>) -> Seq<char> {
    "trade:"@ + timeframe + ":t"@ + symbol
}

/// The candles subscription for a candle key.
pub open spec fn candles_text(key: Seq<char>, plain: bool) -> Seq<char> {
    "{\"event\":\"subscribe\",\"channel\":\"candles\",\"key\":"@ + quoted(key, plain) + "}"@
}

/// The order book subscription for a prefixed symbol.
pub open spec fn books_text(
    symbol: Seq<char>,
    prec: Seq<char>,
    freq: Seq<char>,
    len: nat,
    plain: bool,
) -> Seq<char> {
    "{\"event\":\"subscribe\",\"channel\":\"book\",\"symbol\":"@ + quoted(symbol, plain)
        + ",\"prec\":"@ + quoted(prec, plain) + ",\"freq\":"@ + quoted(freq, plain) + ",\"len\":"@
        + decimal(len) + "}"@
}

/// The raw order book subscription for a prefixed symbol.
pub open spec fn raw_books_text(symbol: Seq<char>, plain: bool) -> Seq<char> {
    "{\"event\":\"subscribe\",\"channel\":\"book\",\"prec\":\"R0\",\"pair\":"@ + quoted(symbol, plain)
        + "}"@
}

/// The one-digit string for `d < 10`.
fn digit_str(d: u32) -> (r: &'static str)
    requires
        d < 10,
    ensures
        r@ == seq![digit_char(d as nat)],
{
    proof {
        reveal_strlit("0");
        reveal_strlit("1");
        reveal_strlit("2");
        reveal_strlit("3");
        reveal_strlit("4");
        reveal_strlit("5");
        reveal_strlit("6");
        reveal_strlit("7");
        reveal_strlit("8");
        reveal_strlit("9");
    }
    let r = if d == 0 { "0" } else if d == 1 { "1" } else if d == 2 { "2" } else if d == 3 { "3" }
    else if d == 4 { "4" } else if d == 5 { "5" } else if d == 6 { "6" } else if d == 7 { "7" }
    else if d == 8 { "8" } else { "9" };
    assert(r@ =~= seq![digit_char(d as nat)]);
    r
}

/// Appends the decimal numeral of `n`.
fn push_decimal(s: &mut String, n: u32)
    ensures
        final(s)@ == old(s)@ + decimal(n as nat),
    decreases n,
{
    if n >= 10 {
        push_decimal(s, n / 10);
    }
    s.append(digit_str(n % 10));
    assert(final(s)@ =~= old(s)@ + decimal(n as nat));
}

/// Prefixes a symbol with `t` for a trading pair or `f` for a funding currency.
pub fn format_symbol(symbol: &str, et: EventType) -> (r: String)
    ensures
        r@ == prefix(et) + symbol@,
{
    let mut r = match et {
        EventType::Funding => String::from_str("f"),
        EventType::Trading => String::from_str("t"),
    };
    proof {
        reveal_strlit("f");
        reveal_strlit("t");
    }
    r.append(symbol);
    r
}

/// The command that subscribes to the ticker of a symbol.
pub fn subscribe_ticker(symbol: &str, et: EventType) -> (r: String)
    ensures
        r@ == ticker_text(prefix(et) + symbol@, false),
        needs_no_escape(symbol@) ==> r@ == ticker_text(prefix(et) + symbol@, true),
{
    let sym = format_symbol(symbol, et);
    let mut r = String::from_str("{\"event\":\"subscribe\",\"channel\":\"ticker\",\"symbol\":");
    r.append(quote(sym.as_str()).as_str());
    r.append("}");
    r
}

/// The command that subscribes to the trades of a symbol.
pub fn subscribe_trades(symbol: &str, et: EventType) -> (r: String)
    ensures
        r@ == trades_text(prefix(et) + symbol@, false),
        needs_no_escape(symbol@) ==> r@ == trades_text(prefix(et) + symbol@, true),
{
    let sym = format_symbol(symbol, et);
    let mut r = String::from_str("{\"event\":\"subscribe\",\"channel\":\"trades\",\"symbol\":");
    r.append(quote(sym.as_str()).as_str());
    r.append("}");
    r
}

/// The command that subscribes to the candles of a trading pair over a timeframe.
pub fn subscribe_candles(symbol: &str, timeframe: &str) -> (r: String)
    ensures
        r@ == candles_text(candles_key(symbol@, timeframe@), false),
        needs_no_escape(symbol@) && needs_no_escape(timeframe@) ==> r@ == candles_text(
            candles_key(symbol@, timeframe@),
            true,
        ),
{
    let mut key = String::from_str("trade:");
    key.append(timeframe);
    key.append(":t");
    key.append(symbol);
    proof {
        reveal_strlit("trade:");
        reveal_strlit(":t");
        if needs_no_escape(symbol@) && needs_no_escape(timeframe@) {
            assert(needs_no_escape("trade:"@));
            assert(needs_no_escape(":t"@));
            plain_concat("trade:"@, timeframe@);
            plain_concat("trade:"@ + timeframe@, ":t"@);
            plain_concat("trade:"@ + timeframe@ + ":t"@, symbol@);
        }
    }
    let mut r = String::from_str("{\"event\":\"subscribe\",\"channel\":\"candles\",\"key\":");
    r.append(quote(key.as_str()).as_str());
    r.append("}");
    r
}

/// The command that subscribes to the order book of a symbol.
pub fn subscribe_books(symbol: &str, et: EventType, prec: &str, freq: &str, len: u32) -> (r: String)
    ensures
        r@ == books_text(prefix(et) + symbol@, prec@, freq@, len as nat, false),
        needs_no_escape(symbol@) && needs_no_escape(prec@) && needs_no_escape(freq@) ==> r@
            == books_text(prefix(et) + symbol@, prec@, freq@, len as nat, true),
{
    let sym = format_symbol(symbol, et);
    let mut r = String::from_str("{\"event\":\"subscribe\",\"channel\":\"book\",\"symbol\":");
    r.append(quote(sym.as_str()).as_str());
    r.append(",\"prec\":");
    r.append(quote(prec).as_str());
    r.append(",\"freq\":");
    r.append(quote(freq).as_str());
    r.append(",\"len\":");
    push_decimal(&mut r, len);
    r.append("}");
    r
}

/// The command that subscribes to the raw order book of a symbol.
pub fn subscribe_raw_books(symbol: &str, et: EventType) -> (r: String)
    ensures
        r@ == raw_books_text(prefix(et) + symbol@, false),
        needs_no_escape(symbol@) ==> r@ == raw_books_text(prefix(et) + symbol@, true),
{
    let sym = format_symbol(symbol, et);
    let mut r = String::from_str("{\"event\":\"subscribe\",\"channel\":\"book\",\"prec\":\"R0\",\"pair\":");
    r.append(quote(sym.as_str()).as_str());
    r.append("}");
    r
}

/// The flag that turns the dead man switch on.
pub const DEAD_MAN_SWITCH_FLAG: u32 = 4;

/// The text that an authentication signs: `AUTH` and the nonce.
pub open spec fn auth_payload_of(nonce: Seq<char>) -> Seq<char> {
    "AUTH"@ + nonce
}

/// Whether no text of a list has anything to escape.
pub open spec fn all_plain(fs: Seq<Seq<char>>) -> bool {
    forall|k: int| 0 <= k < fs.len() ==> needs_no_escape(#[trigger] fs[k])
}

/// The JSON literals of a list of texts, comma separated.
pub open spec fn joined(fs: Seq<Seq<char>>, plain: bool) -> Seq<char>
    decreases fs.len(),
{
    if fs.len() == 0 {
        Seq::empty()
    } else if fs.len() == 1 {
        quoted(fs[0], plain)
    } else {
        joined(fs.drop_last(), plain) + ","@ + quoted(fs.last(), plain)
    }
}

/// The texts of a list of string slices.
pub open spec fn views(filters: Seq<&str>) -> Seq<Seq<char>> {
    filters.map_values(|f: &str| f@)
}

/// The authentication command, member by member.
pub open spec fn auth_text(
    api_key: Seq<char>,
    signature: Seq<char>,
    nonce: Seq<char>,
    payload: Seq<char>,
    dms: bool,
    filters: Seq<Seq<char>>,
    plain: bool,
) -> Seq<char> {
    "{\"event\":\"auth\",\"apiKey\":"@ + quoted(api_key, plain) + ",\"authSig\":"@ + quoted(
        signature,
        plain,
    ) + ",\"authNonce\":"@ + quoted(nonce, plain) + ",\"authPayload\":"@ + quoted(payload, plain)
        + (if dms {
        ",\"dms\":"@ + decimal(DEAD_MAN_SWITCH_FLAG as nat)
    } else {
        Seq::empty()
    }) + ",\"filters\":["@ + joined(filters, plain) + "]}"@
}

/// The text that an authentication with `nonce` signs.
pub fn auth_payload(nonce: &str) -> (r: String)
    ensures
        r@ == auth_payload_of(nonce@),
{
    let mut r = String::from_str("AUTH");
    r.append(nonce);
    r
}

/// The command that authenticates the connection: the payload `AUTH` and the
/// nonce is signed with the secret, and sent with the key, the nonce, the
/// signature, the dead man switch when it is on, and the filters.
pub fn auth_command(api_key: &str, api_secret: &str, nonce: &str, dms: bool, filters: &[&str]) -> (r:
    String)
    ensures
        r@ == auth_text(
            api_key@,
            hmac_sha384_hex(api_secret@, auth_payload_of(nonce@)),
            nonce@,
            auth_payload_of(nonce@),
            dms,
            views(filters@),
            false,
        ),
        needs_no_escape(api_key@) && needs_no_escape(nonce@) && all_plain(views(filters@)) ==> r@
            == auth_text(
            api_key@,
            hmac_sha384_hex(api_secret@, auth_payload_of(nonce@)),
            nonce@,
            auth_payload_of(nonce@),
            dms,
            views(filters@),
            true,
        ),
{
    let ghost fs = views(filters@);
    let ghost plain = needs_no_escape(api_key@) && needs_no_escape(nonce@) && all_plain(fs);
    let payload = auth_payload(nonce);
    let signature = sign_payload(api_secret, payload.as_str());
    proof {
        reveal_strlit("AUTH");
        if plain {
            assert(needs_no_escape("AUTH"@));
            plain_concat("AUTH"@, nonce@);
            assert forall|i: int| 0 <= i < signature@.len() implies signature@[i] != '"'
                && signature@[i] != '\\' && (signature@[i] as u32) >= 0x20 by {
                assert(is_hex_digit(signature@[i]));
            }
        }
    }
    let mut r = String::from_str("{\"event\":\"auth\",\"apiKey\":");
    r.append(quote(api_key).as_str());
    r.append(",\"authSig\":");
    r.append(quote(signature.as_str()).as_str());
    r.append(",\"authNonce\":");
    r.append(quote(nonce).as_str());
    r.append(",\"authPayload\":");
    r.append(quote(payload.as_str()).as_str());
    if dms {
        r.append(",\"dms\":");
        push_decimal(&mut r, DEAD_MAN_SWITCH_FLAG);
    }
    r.append(",\"filters\":[");
    let ghost base = r@;
    let mut i: usize = 0;
    while i < filters.len()
        invariant
            i <= filters@.len(),
            fs == views(filters@),
            plain ==> all_plain(fs),
            r@ == base + joined(fs.take(i as int), false),
            plain ==> joined(fs.take(i as int), false) == joined(fs.take(i as int), true),
        decreases filters@.len() - i,
    {
        if i > 0 {
            r.append(",");
        }
        let q = quote(filters[i]);
        r.append(q.as_str());
        proof {
            assert(fs.take(i + 1).drop_last() =~= fs.take(i as int));
            assert(fs.take(i + 1).last() == filters@[i as int]@);
            assert(fs[i as int] == filters@[i as int]@);
            if plain {
                assert(needs_no_escape(fs[i as int]));
            }
            if i == 0 {
                assert(joined(fs.take(0), false) =~= Seq::<char>::empty());
                assert(joined(fs.take(0), true) =~= Seq::<char>::empty());
            }
        }
        i += 1;
    }
    assert(fs.take(filters@.len() as int) =~= fs);
    r.append("]}");
    r
}

} // verus!
