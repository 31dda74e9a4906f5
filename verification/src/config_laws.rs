//! What holds of the settings text across `parse` and `to_toml`.
use vstd::prelude::*;

use crate::config::apply_line;
use crate::config::apply_lines;
use crate::config::apply_setting;
use crate::config::bool_text;
use crate::config::bool_value;
use crate::config::default_config;
use crate::config::join_lines;
use crate::config::level_text;
use crate::config::level_value;
use crate::config::parse_config;
use crate::config::quoted;
use crate::config::setting_line;
use crate::config::toml_lines;
use crate::config::toml_text;
use crate::config::AppConfig;
use crate::config::LogLevel;
use crate::text::all_digits;
use crate::text::ascii_lowercase;
use crate::text::decimal_text;
use crate::text::decimal_value;
use crate::text::digit_char;
use crate::text::digit_value;
use crate::text::index_of;
use crate::text::is_digit;
use crate::text::is_whitespace;
use crate::text::leading_whitespace;
use crate::text::lemma_index_of_at;
use crate::text::lemma_leading_whitespace_at;
use crate::text::lemma_trailing_whitespace_at;
use crate::text::lines;
use crate::text::strip_cr;
use crate::text::trailing_whitespace;
use crate::text::trim;
use crate::text::unquote;
use crate::text::unsigned_value;

verus! {

/// Text that is not empty and holds no white space, `#`, `=` or line end.
pub open spec fn plain_text(t: Seq<char>) -> bool {
    &&& t.len() > 0
    &&& forall|i: int|
        0 <= i < t.len() ==> {
            let c = #[trigger] t[i];
            !is_whitespace(c) && c != '#' && c != '=' && c != '\n'
        }
}

/// A line with no line end in it and no carriage return at its end.
pub open spec fn single_line(t: Seq<char>) -> bool {
    &&& forall|i: int| 0 <= i < t.len() ==> #[trigger] t[i] != '\n'
    &&& (t.len() == 0 || t.last() != '\r')
}

/// Reading back lines that were joined with line ends gives the same lines.
pub proof fn lemma_lines_of_joined(ls: Seq<Seq<char>>)
    requires
        forall|i: int| 0 <= i < ls.len() ==> single_line(#[trigger] ls[i]),
    ensures
        lines(join_lines(ls)) == ls,
    decreases ls.len(),
{
    reveal_strlit("\n");
    if ls.len() > 0 {
        let l = ls[0];
        let rest = ls.drop_first();
        assert forall|i: int| 0 <= i < rest.len() implies single_line(#[trigger] rest[i]) by {
            assert(rest[i] == ls[i + 1]);
        }
        lemma_lines_of_joined(rest);
        let t = join_lines(ls);
        assert(single_line(ls[0]));
        assert forall|i: int| 0 <= i < l.len() implies t[i] != '\n' by {
            assert(t[i] == l[i]);
        }
        assert(t[l.len() as int] == '\n');
        lemma_index_of_at(t, '\n', l.len() as int);
        assert(t.take(l.len() as int) =~= l);
        assert(strip_cr(l) == l);
        assert(t.skip(l.len() + 1 as int) =~= join_lines(rest));
        assert(lines(t) =~= seq![l] + lines(join_lines(rest)));
        assert(seq![l] + rest =~= ls);
    }
}

/// A `key = value` line of plain key and value sets that key to that value.
pub proof fn lemma_apply_setting_line(config: AppConfig, key: Seq<char>, value: Seq<char>)
    requires
        plain_text(key),
        plain_text(value),
    ensures
        apply_line(config, setting_line(key, value)) == apply_setting(config, key, value),
        single_line(setting_line(key, value)),
{
    reveal_strlit(" = ");
    let raw = setting_line(key, value);
    let n: int = key.len() as int;
    assert(raw.len() == n + 3 + value.len());
    assert forall|i: int| 0 <= i < raw.len() implies {
        let c = #[trigger] raw[i];
        c != '#' && c != '\n' && (i == n || i == n + 2 || !is_whitespace(c)) && (i == n + 1
            || c != '=')
    } by {
        if i < n {
            assert(raw[i] == key[i]);
        } else if i < n + 3 {
        } else {
            assert(raw[i] == value[i - n - 3]);
        }
    }
    lemma_index_of_at(raw, '#', raw.len() as int);
    assert(raw.take(raw.len() as int) =~= raw);
    assert(raw[0] == key[0]);
    lemma_leading_whitespace_at(raw, 0);
    assert(raw.skip(0) =~= raw);
    assert(raw[raw.len() - 1] == value[value.len() - 1]);
    lemma_trailing_whitespace_at(raw, 0);
    assert(raw.take(raw.len() - 0) =~= raw);
    assert(trim(raw) == raw);
    lemma_index_of_at(raw, '=', n + 1);
    let k = raw.take(n + 1);
    assert(k[n as int] == ' ');
    assert forall|i: int| 0 <= i < n implies k[i] == key[i] by {}
    lemma_leading_whitespace_at(k, 0);
    assert(k.skip(0) =~= k);
    lemma_trailing_whitespace_at(k, 1);
    assert(k.take(n as int) =~= key);
    let v = raw.skip(n + 2);
    assert(v[0] == ' ');
    assert forall|i: int| 1 <= i < v.len() implies v[i] == value[i - 1] by {}
    lemma_leading_whitespace_at(v, 1);
    let w = v.skip(1);
    assert(w =~= value);
    assert(w[w.len() - 1] == value[value.len() - 1]);
    lemma_trailing_whitespace_at(w, 0);
    assert(w.take(w.len() - 0) =~= w);
}

pub proof fn lemma_bool_text(b: bool)
    ensures
        bool_value(bool_text(b)) == Some(b),
        plain_text(bool_text(b)),
{
    reveal_strlit("true");
    reveal_strlit("false");
    assert("true"@.len() != "false"@.len());
}

pub proof fn lemma_digit_char(d: nat)
    requires
        d < 10,
    ensures
        is_digit(digit_char(d)),
        digit_value(digit_char(d)) == d,
        !is_whitespace(digit_char(d)),
        digit_char(d) != '#',
        digit_char(d) != '=',
        digit_char(d) != '\n',
        digit_char(d) != '+',
{
}

/// The decimal digits of a number read back as that number.
pub proof fn lemma_decimal_text(n: nat)
    ensures
        all_digits(decimal_text(n)),
        decimal_value(decimal_text(n)) == n,
        plain_text(decimal_text(n)),
        decimal_text(n)[0] != '+',
    decreases n,
{
    let t = decimal_text(n);
    if n < 10 {
        lemma_digit_char(n);
        assert(t.drop_last() =~= Seq::<char>::empty());
        assert(decimal_value(Seq::<char>::empty()) == 0);
    } else {
        lemma_decimal_text(n / 10);
        lemma_digit_char(n % 10);
        let u = decimal_text(n / 10);
        assert(t.drop_last() =~= u);
        assert forall|i: int| 0 <= i < t.len() implies is_digit(#[trigger] t[i]) && !is_whitespace(
            t[i],
        ) && t[i] != '#' && t[i] != '=' && t[i] != '\n' by {
            if i < u.len() {
                assert(t[i] == u[i]);
            }
        }
        assert(t[0] == u[0]);
        assert(decimal_value(t) == decimal_value(u) * 10 + digit_value(digit_char(n % 10)));
    }
}

pub proof fn lemma_unsigned_of_decimal(n: nat, max: nat)
    requires
        n <= max,
    ensures
        unsigned_value(decimal_text(n), max) == Some(n),
        plain_text(decimal_text(n)),
{
    lemma_decimal_text(n);
}

pub proof fn lemma_level_text(level: LogLevel)
    ensures
        level_value(quoted(level_text(level))) == Some(level),
        plain_text(quoted(level_text(level))),
{
    reveal_strlit("\"");
    reveal_strlit("error");
    reveal_strlit("warn");
    reveal_strlit("info");
    reveal_strlit("debug");
    reveal_strlit("trace");
    let t = level_text(level);
    let q = quoted(t);
    assert(q.subrange(1, q.len() - 1) =~= t);
    assert(unquote(q) == t);
    assert(ascii_lowercase(t) =~= t);
    assert("error"@.len() == 5 && "warn"@.len() == 4 && "info"@.len() == 4);
    assert("debug"@.len() == 5 && "trace"@.len() == 5);
    assert("warn"@[0] != "info"@[0]);
    assert("error"@[0] != "debug"@[0] && "error"@[0] != "trace"@[0] && "debug"@[0]
        != "trace"@[0]);
    assert forall|i: int| 0 <= i < q.len() implies {
        let c = #[trigger] q[i];
        !is_whitespace(c) && c != '#' && c != '=' && c != '\n'
    } by {
        if 1 <= i < q.len() - 1 {
            assert(q[i] == t[i - 1]);
        }
    }
}

/// The settings after line `i` of the text form of `c` was read into `before`.
pub open spec fn toml_step(c: AppConfig, before: AppConfig, i: int) -> AppConfig {
    if i == 0 {
        AppConfig { enabled: c.enabled, ..before }
    } else if i == 1 {
        AppConfig { start_with_windows: c.start_with_windows, ..before }
    } else if i == 2 {
        AppConfig { retry_count: c.retry_count, ..before }
    } else if i == 3 {
        AppConfig { retry_delay_ms: c.retry_delay_ms, ..before }
    } else if i == 4 {
        AppConfig { write_png: c.write_png, ..before }
    } else if i == 5 {
        AppConfig { write_dib: c.write_dib, ..before }
    } else {
        AppConfig { log_level: c.log_level, ..before }
    }
}

/// Each line of the text form sets its own setting.
pub proof fn lemma_toml_line(c: AppConfig, before: AppConfig, i: int)
    requires
        0 <= i < 7,
    ensures
        apply_line(before, toml_lines(c)[i]) == Ok::<AppConfig, Seq<char>>(
            toml_step(c, before, i),
        ),
        single_line(toml_lines(c)[i]),
{
    reveal_strlit("enabled");
    reveal_strlit("start_with_windows");
    reveal_strlit("retry_count");
    reveal_strlit("retry_delay_ms");
    reveal_strlit("write_png");
    reveal_strlit("write_dib");
    reveal_strlit("log_level");
    assert("write_dib"@[6] != "write_png"@[6]);
    if i == 0 {
        lemma_bool_text(c.enabled);
        lemma_apply_setting_line(before, "enabled"@, bool_text(c.enabled));
    } else if i == 1 {
        lemma_bool_text(c.start_with_windows);
        lemma_apply_setting_line(before, "start_with_windows"@, bool_text(c.start_with_windows));
    } else if i == 2 {
        lemma_unsigned_of_decimal(c.retry_count as nat, u32::MAX as nat);
        lemma_apply_setting_line(before, "retry_count"@, decimal_text(c.retry_count as nat));
    } else if i == 3 {
        lemma_unsigned_of_decimal(c.retry_delay_ms as nat, u64::MAX as nat);
        lemma_apply_setting_line(before, "retry_delay_ms"@, decimal_text(c.retry_delay_ms as nat));
    } else if i == 4 {
        lemma_bool_text(c.write_png);
        lemma_apply_setting_line(before, "write_png"@, bool_text(c.write_png));
    } else if i == 5 {
        lemma_bool_text(c.write_dib);
        lemma_apply_setting_line(before, "write_dib"@, bool_text(c.write_dib));
    } else {
        lemma_level_text(c.log_level);
        lemma_apply_setting_line(before, "log_level"@, quoted(level_text(c.log_level)));
    }
}

/// The settings after the first `i` lines of the text form of `c` were read.
pub open spec fn toml_prefix(c: AppConfig, i: nat) -> AppConfig
    decreases i,
{
    if i == 0 {
        default_config()
    } else {
        toml_step(c, toml_prefix(c, (i - 1) as nat), i - 1)
    }
}

/// Reading the lines `i..` of the text form of `c` after the lines before them.
pub proof fn lemma_toml_rest(c: AppConfig, i: nat)
    requires
        i <= 7,
    ensures
        apply_lines(toml_prefix(c, i), toml_lines(c).skip(i as int), i + 1 as int) == Ok::<
            AppConfig,
            (int, Seq<char>),
        >(toml_prefix(c, 7)),
    decreases 7 - i,
{
    let ls = toml_lines(c);
    if i == 7 {
        assert(ls.skip(7) =~= Seq::<Seq<char>>::empty());
    } else {
        lemma_toml_line(c, toml_prefix(c, i), i as int);
        assert(ls.skip(i as int)[0] == ls[i as int]);
        assert(ls.skip(i as int).drop_first() =~= ls.skip(i + 1 as int));
        assert(toml_prefix(c, i + 1) == toml_step(c, toml_prefix(c, i), i as int));
        lemma_toml_rest(c, i + 1);
    }
}

/// Reading the text form of any settings gives back those settings.
pub proof fn lemma_parse_of_toml(c: AppConfig)
    ensures
        parse_config(toml_text(c)) == Ok::<AppConfig, (int, Seq<char>)>(c),
{
    let ls = toml_lines(c);
    assert forall|i: int| 0 <= i < ls.len() implies single_line(#[trigger] ls[i]) by {
        lemma_toml_line(c, default_config(), i);
    }
    lemma_lines_of_joined(ls);
    lemma_toml_rest(c, 0);
    assert(ls.skip(0) =~= ls);
    reveal_with_fuel(toml_prefix, 8);
}

} // verus!
