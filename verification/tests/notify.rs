use binance_btc_bot::notify::render_notification;
use binance_btc_bot::snapshot::BinanceInfo;

fn info(height: i128, date: &str, amount: &str, balance: &str) -> BinanceInfo {
    BinanceInfo::new(height, date.to_string(), amount.to_string(), balance.to_string())
}

#[test]
fn renders_the_template() {
    assert_eq!(
        render_notification(&info(800001, "2024-01-02", "1.0", "13.3")),
        "На сайте появилась новая транзакция!\nБлок: 800001\nДата: 2024-01-02\nСумма: 1.0\nТекущий баланс: 13.3 BTC"
    );
}

#[test]
fn renders_as_the_format_string_would() {
    let seen = info(-7, "d", "a", "b");
    let expected = format!(
        "На сайте появилась новая транзакция!\nБлок: {}\nДата: {}\nСумма: {}\nТекущий баланс: {} BTC",
        -7, "d", "a", "b"
    );
    assert_eq!(render_notification(&seen), expected);
}

#[test]
fn keeps_amount_and_balance_verbatim() {
    let text = render_notification(&info(1, "2024", "+0.50000000 BTC", "0012.300"));
    assert!(text.contains("Сумма: +0.50000000 BTC\n"));
    assert!(text.ends_with("Текущий баланс: 0012.300 BTC"));
}

#[test]
fn renders_empty_texts() {
    assert_eq!(
        render_notification(&info(0, "", "", "")),
        "На сайте появилась новая транзакция!\nБлок: 0\nДата: \nСумма: \nТекущий баланс:  BTC"
    );
}
