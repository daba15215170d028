use statusline::text::lines_of;
use statusline::text::split_pieces;
use statusline::text::trim_str;
use statusline::text::words_of;
use statusline::text::Delim;

#[test]
fn lines_like_std() {
    for s in ["", "a", "a\n", "\n", "a\r\nb", "a\n\nb\n", "x\r", "a\rb\n"] {
        let expected: Vec<String> = s.lines().map(|l| l.to_string()).collect();
        assert_eq!(lines_of(s), expected, "input {:?}", s);
    }
}

#[test]
fn words_and_trim_like_std() {
    for s in ["", "  a  b ", "\u{3000}x\ty\u{a0}", "one"] {
        let expected: Vec<String> = s.split_whitespace().map(|l| l.to_string()).collect();
        assert_eq!(words_of(s), expected);
        assert_eq!(trim_str(s), s.trim());
    }
}

#[test]
fn split_like_std() {
    for s in ["", "a|b", "|", "a||b|"] {
        let expected: Vec<String> = s.split('|').map(|l| l.to_string()).collect();
        assert_eq!(split_pieces(s, Delim::Char('|')), expected);
    }
}
