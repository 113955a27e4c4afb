use wayclip_cli::callback::{parse_token_from_header, parse_token_from_request};
use wayclip_cli::model::AuthCallbackResult;
use wayclip_cli::validate::{sanitize_and_validate_filename_stem, validate_ffmpeg_time};

fn texts(alphabet: &[&str], length: usize) -> Vec<String> {
    let mut all = vec![String::new()];
    let mut last = vec![String::new()];
    for _ in 0..length {
        let mut next = Vec::new();
        for prefix in &last {
            for piece in alphabet {
                next.push(format!("{}{}", prefix, piece));
            }
        }
        all.extend(next.iter().cloned());
        last = next;
    }
    all
}

#[test]
fn every_short_text_is_a_number_exactly_when_it_parses() {
    let alphabet = ["0", "7", ".", "e", "E", "+", "-", "i", "n", "f", "a", "1 "];
    for s in texts(&alphabet, 4) {
        let expected = s.trim().parse::<f64>().is_ok();
        assert_eq!(validate_ffmpeg_time(&s).is_ok(), expected, "{:?}", s);
    }
    for s in ["infinity", "+Infinity", "-INFINITY", "infinit", "infinityy", "1e308", "1e-400", "nan0"] {
        assert_eq!(validate_ffmpeg_time(s).is_ok(), s.parse::<f64>().is_ok(), "{:?}", s);
    }
}

#[test]
fn every_short_text_is_a_clock_time_exactly_when_its_parts_parse() {
    let alphabet = ["1", ".", ":", "e", "-", " "];
    for s in texts(&alphabet, 6) {
        let t = s.trim();
        let parts: Vec<&str> = t.split(':').collect();
        let expected = t.parse::<f64>().is_ok()
            || (parts.len() <= 3 && parts.iter().all(|p| p.parse::<f64>().is_ok()));
        match validate_ffmpeg_time(&s) {
            Ok(time) => {
                assert!(expected, "{:?}", s);
                assert_eq!(time, t);
            }
            Err(e) => {
                assert!(!expected, "{:?}", s);
                assert_eq!(e.input, s);
            }
        }
    }
}

#[test]
fn every_short_name_is_sanitized_as_std_would() {
    let alphabet = ["a", " ", "\t", "_", "/", "?", "é", "\u{a0}", "."];
    for s in texts(&alphabet, 4) {
        let trimmed = s.trim();
        let sanitized = trimmed.replace(' ', "_");
        let bad = sanitized.chars().any(|c| "<>:\"/\\|?*".contains(c));
        match sanitize_and_validate_filename_stem(&s) {
            Ok(name) => {
                assert!(!trimmed.is_empty() && !bad, "{:?}", s);
                assert_eq!(name, sanitized);
            }
            Err(_) => assert!(trimmed.is_empty() || bad, "{:?}", s),
        }
    }
}

fn expected_outcome(request: &str) -> Option<(bool, String)> {
    let first_line = request.lines().next()?;
    if !first_line.contains("/auth/callback") {
        return None;
    }
    let path_and_query = first_line.split_whitespace().nth(1)?;
    let query_string = path_and_query.split('?').nth(1)?;
    if let Some(token) = query_string.split('&').find_map(|p| p.strip_prefix("token=")) {
        return Some((true, token.to_string()));
    }
    query_string
        .split('&')
        .find_map(|p| p.strip_prefix("2fa_token="))
        .map(|token| (false, token.to_string()))
}

#[test]
fn every_small_request_resolves_as_std_would_read_it() {
    let alphabet = [
        "GET", " ", "/auth/callback", "?", "&", "token=", "2fa_token=", "x", "\r\n", "\n", "\t",
        "HTTP/1.1",
    ];
    for request in texts(&alphabet, 5) {
        let got = match parse_token_from_request(&request) {
            Some(AuthCallbackResult::Success(t)) => Some((true, t)),
            Some(AuthCallbackResult::TwoFactor(t)) => Some((false, t)),
            Some(AuthCallbackResult::Error(e)) => panic!("{:?} gave the error {:?}", request, e),
            None => None,
        };
        assert_eq!(got, expected_outcome(&request), "{:?}", request);
    }
}

#[test]
fn every_small_cookie_is_read_as_std_would_read_it() {
    let alphabet = ["token", "=", ";", " ", "a", "Path", "\t"];
    for header in texts(&alphabet, 6) {
        let expected = header.split(';').find_map(|part| {
            let mut key_val = part.trim().splitn(2, '=');
            if key_val.next() == Some("token") {
                key_val.next().map(String::from)
            } else {
                None
            }
        });
        assert_eq!(parse_token_from_header(Some(&header)), expected, "{:?}", header);
    }
}
