use caffeine_cf::outcome::Mirror;
use caffeine_cf::target::{
    append_decimal, base_url, enter_url, form_script, login_script, my_submissions_url,
    source_script, source_script_of, submit_url,
};

fn decimal(n: i64) -> String {
    let mut s = String::new();
    append_decimal(&mut s, n);
    s
}

#[test]
fn base_urls_by_mirror() {
    assert_eq!(base_url(Mirror::Main), "https://codeforces.com/");
    assert_eq!(base_url(Mirror::M1), "https://m1.codeforces.com/");
    assert_eq!(base_url(Mirror::M2), "https://m2.codeforces.com/");
    assert_eq!(base_url(Mirror::M3), "https://m3.codeforces.com/");
}

#[test]
fn surface_urls() {
    assert_eq!(enter_url(Mirror::Main), "https://codeforces.com/enter");
    assert_eq!(enter_url(Mirror::M3), "https://m3.codeforces.com/enter");
    assert_eq!(submit_url(Mirror::Main, 1466), "https://codeforces.com/contest/1466/submit");
    assert_eq!(submit_url(Mirror::M1, 7), "https://m1.codeforces.com/contest/7/submit");
    assert_eq!(my_submissions_url(Mirror::M2, 1466), "https://m2.codeforces.com/contest/1466/my");
    assert_eq!(my_submissions_url(Mirror::Main, -12), "https://codeforces.com/contest/-12/my");
}

#[test]
fn decimal_matches_the_usual_notation() {
    for n in [0i64, 1, 9, 10, 11, 99, 100, 101, 1466, 1000000007, -1, -9, -10, -1466, i64::MAX, i64::MIN, i64::MIN + 1] {
        assert_eq!(decimal(n), n.to_string());
    }
    assert_eq!(decimal(0), "0");
    assert_eq!(decimal(i64::MIN), "-9223372036854775808");
    let mut s = "x=".to_string();
    append_decimal(&mut s, 54);
    assert_eq!(s, "x=54");
}

#[test]
fn login_script_fills_in_both_fields() {
    assert_eq!(
        login_script("tourist", "hunter2"),
        "$('#handleOrEmail').val('tourist');\n            $('#password').val('hunter2');\n            $('input#handleOrEmail').closest('form').submit();"
    );
    assert_eq!(login_script("a", "b"), format!(
        "$('#handleOrEmail').val('{}');
            $('#password').val('{}');
            $('input#handleOrEmail').closest('form').submit();",
        "a", "b"
    ));
}

#[test]
fn form_script_selects_problem_and_language() {
    assert_eq!(
        form_script("A", 54),
        "$('[name=problemIndex],[name=submittedProblemIndex]').val('A');\n            $('[name=programTypeId]').val('54');"
    );
    assert_eq!(form_script("B2", -3), format!(
        "$('[name=problemIndex],[name=submittedProblemIndex]').val('{}');
            $('[name=programTypeId]').val('{}');",
        "B2", -3
    ));
}

#[test]
fn source_script_quotes_the_source() {
    assert_eq!(source_script("int main(){}"), "$('[name=source]').val(\"int main(){}\");");
    assert_eq!(
        source_script("puts(\"hi\");\n\treturn '\\\\';"),
        "$('[name=source]').val(\"puts(\\\"hi\\\");\\n\\treturn '\\\\\\\\';\");"
    );
    assert_eq!(source_script(""), "$('[name=source]').val(\"\");");
    let src = "a\"b\\c\r\n";
    assert_eq!(source_script(src), format!("$('[name=source]').val({:?});", src));
}

#[test]
fn source_script_of_puts_the_quoted_text_in_as_it_is() {
    assert_eq!(source_script_of("\"x\""), "$('[name=source]').val(\"x\");");
    assert_eq!(source_script_of(""), "$('[name=source]').val();");
    assert_eq!(source_script_of("a);b"), "$('[name=source]').val(a);b);");
}
