use manguins::markdown::escape_markdown;

#[test]
fn escape_plain_text_unchanged() {
    assert_eq!(escape_markdown("Hello world 123"), "Hello world 123");
}

#[test]
fn escape_every_reserved_character() {
    assert_eq!(
        escape_markdown("\\_*[]()~`!.>#+-=|{}"),
        "\\\\\\_\\*\\[\\]\\(\\)\\~\\`\\!\\.\\>\\#\\+\\-\\=\\|\\{\\}"
    );
}

#[test]
fn escape_mixed_text() {
    assert_eq!(escape_markdown("Price: $1.5 (up)"), "Price: $1\\.5 \\(up\\)");
    assert_eq!(escape_markdown("🤖 *Bot*"), "🤖 \\*Bot\\*");
}

#[test]
fn escape_matches_chained_replacements() {
    let text = "a\\b_c*d[e]f(g)h~i`j!k.l>m#n+o-p=q|r{s}t \\_ done.";
    let chained = text
        .replace('\\', "\\\\")
        .replace('_', "\\_")
        .replace('*', "\\*")
        .replace('[', "\\[")
        .replace(']', "\\]")
        .replace('(', "\\(")
        .replace(')', "\\)")
        .replace('~', "\\~")
        .replace('`', "\\`")
        .replace('!', "\\!")
        .replace('.', "\\.")
        .replace('>', "\\>")
        .replace('#', "\\#")
        .replace('+', "\\+")
        .replace('-', "\\-")
        .replace('=', "\\=")
        .replace('|', "\\|")
        .replace('{', "\\{")
        .replace('}', "\\}");
    assert_eq!(escape_markdown(text), chained);
}

#[test]
fn escape_empty() {
    assert_eq!(escape_markdown(""), "");
}

#[test]
fn escape_distinct_texts_stay_distinct() {
    assert_ne!(escape_markdown("\\."), escape_markdown("."));
    assert_eq!(escape_markdown("\\."), "\\\\\\.");
    assert_eq!(escape_markdown("."), "\\.");
}
