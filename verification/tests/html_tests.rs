use weather_report::html_render::{
    data_table_html, escape, poster_metrics, poster_rows_html, render_poster_html, to_file_url,
    PosterLayout, RowFonts,
};
use weather_report::model::DayForecast;

fn day(name: &str, date: &str, condition: &str, summary: &str) -> DayForecast {
    DayForecast {
        day_name: name.to_string(),
        date: date.to_string(),
        condition: condition.to_string(),
        high_temp: "31°".to_string(),
        low_temp: "21°".to_string(),
        precip_chance: "5%".to_string(),
        summary: summary.to_string(),
    }
}

#[test]
fn escapes_markup_characters() {
    assert_eq!(escape("<a href=\"x\">Tom & Jerry</a>"), "&lt;a href=&quot;x&quot;&gt;Tom &amp; Jerry&lt;/a&gt;");
    assert_eq!(escape("&amp;"), "&amp;amp;");
    assert_eq!(escape("ಮಳೆ 'x'"), "ಮಳೆ 'x'");
}

#[test]
fn file_urls_for_posix_and_windows_paths() {
    assert_eq!(to_file_url("/home/me/assets/ig-bg.png"), "file:///home/me/assets/ig-bg.png");
    assert_eq!(to_file_url("\\\\?\\D:\\proj\\assets\\yt-bg.png"), "file:///D:/proj/assets/yt-bg.png");
    assert_eq!(to_file_url("C:\\fonts\\a.ttf"), "file:///C:/fonts/a.ttf");
    assert_eq!(to_file_url(""), "file:///");
}

#[test]
fn layouts_have_their_aspect_ratios() {
    let ig = PosterLayout::instagram_9x16();
    let yt = PosterLayout::youtube_16x9();
    assert_eq!((ig.width, ig.height, ig.padding, ig.header_height), (1080, 1920, 56, 150));
    assert_eq!((ig.title_size, ig.subtitle_size, ig.max_row_font, ig.min_row_font), (52, 28, 30, 16));
    assert_eq!((yt.width, yt.height, yt.padding, yt.header_height), (1920, 1080, 48, 110));
    assert_eq!((yt.title_size, yt.subtitle_size, yt.max_row_font, yt.min_row_font), (46, 24, 26, 14));
    assert_eq!(ig.width * 16, ig.height * 9);
    assert_eq!(yt.width * 9, yt.height * 16);
}

#[test]
fn rows_share_the_table_height() {
    let ig = poster_metrics(&PosterLayout::instagram_9x16(), 5);
    assert_eq!((ig.table_height, ig.row_height, ig.row_pad_h), (1658, 325, 18));
    let yt = poster_metrics(&PosterLayout::youtube_16x9(), 5);
    assert_eq!((yt.table_height, yt.row_height, yt.row_pad_h), (874, 168, 16));
    assert_eq!(poster_metrics(&PosterLayout::youtube_16x9(), 0).row_height, 874);
    assert_eq!(poster_metrics(&PosterLayout::youtube_16x9(), 1).row_height, 874);
    let many = poster_metrics(&PosterLayout::youtube_16x9(), 100);
    assert_eq!(many.row_height, 40);
    let fits = |m: weather_report::html_render::PosterMetrics, n: u32| n * m.row_height + 8 * (n - 1) <= m.table_height;
    let ig34 = poster_metrics(&PosterLayout::instagram_9x16(), 34);
    assert_eq!(ig34.row_height, 41);
    assert!(fits(ig34, 34));
    let ig35 = poster_metrics(&PosterLayout::instagram_9x16(), 35);
    assert_eq!(ig35.row_height, 40);
    assert!(!fits(ig35, 35));
    let yt18 = poster_metrics(&PosterLayout::youtube_16x9(), 18);
    assert!(fits(yt18, 18));
    let yt19 = poster_metrics(&PosterLayout::youtube_16x9(), 19);
    assert_eq!(yt19.row_height, 40);
    assert!(!fits(yt19, 19));
    let n = 10u32;
    let fit = poster_metrics(&PosterLayout::instagram_9x16(), n as usize);
    assert!(n * fit.row_height + 8 * (n - 1) <= fit.table_height);
}

#[test]
fn data_table_has_one_row_per_day() {
    let days = vec![day("ಮಂಗಳವಾರ", "08 04", "ಬಿಸಿಲು", "a<b"), day("Wed", "08 05", "Rain", "")];
    let html = data_table_html(&days, "Mysore & co");
    assert!(html.starts_with("<!DOCTYPE html>\n<html lang=\"kn\">\n<head>\n<meta charset=\"UTF-8\">\n<title>Mysore &amp; co</title>\n"));
    assert!(html.contains("  <h1>Mysore &amp; co</h1>\n"));
    assert!(html.contains("    <tr>\n      <td>ಮಂಗಳವಾರ</td>\n      <td>08 04</td>\n      <td>ಬಿಸಿಲು</td>\n      <td>31°</td>\n      <td>21°</td>\n      <td>a&lt;b</td>\n    </tr>\n"));
    assert_eq!(html.matches("<tr>").count(), 3);
    assert!(html.ends_with("    </tbody>\n  </table>\n</body>\n</html>\n"));
}

#[test]
fn poster_rows_show_day_date_and_temperatures() {
    let rows = poster_rows_html(&[day("Tue", "08 04", "Sunny", "fine")]);
    assert_eq!(
        rows,
        "    <tr>\n      <td class=\"day\">Tue 08 04</td>\n      <td class=\"condition\">Sunny</td>\n      <td class=\"temps\">31° / 21°</td>\n      <td class=\"summary\">fine</td>\n    </tr>\n"
    );
}

#[test]
fn poster_template_is_filled() {
    let template = "<title>{{TITLE}}</title><h2>{{SUBTITLE}}</h2>{{FONT_PATH}}|{{BG_IMAGE}}|{{WIDTH}}x{{HEIGHT}}|{{PADDING}}|{{TITLE_SIZE}}|{{SUBTITLE_SIZE}}|{{HEADER_HEIGHT}}|{{TABLE_HEIGHT}}|{{ROW_GAP}}|{{ROW_HEIGHT}}|{{ROW_PAD_V}}|{{ROW_PAD_H}}|{{ROW_FONT_SIZE}}|{{SUMMARY_FONT_SIZE}}|{{SUMMARY_MAX_LINES}}|{{COL_DAY_PCT}} {{COL_CONDITION_PCT}} {{COL_TEMPS_PCT}} {{COL_SUMMARY_PCT}}|{{ROWS}}{{TITLE}}";
    let fonts = RowFonts { row_font_size: 30, summary_font_size: 23, summary_max_lines: 9 };
    let days = [day("Tue", "08 04", "Sunny", "fine")];
    let html = render_poster_html(
        &days,
        "A<B",
        "sub",
        template,
        "/f/font.ttf",
        "C:\\bg.png",
        &PosterLayout::instagram_9x16(),
        &fonts,
    );
    let expected = format!(
        "<title>A&lt;B</title><h2>sub</h2>file:///f/font.ttf|file:///C:/bg.png|1080x1920|56|52|28|150|1658|8|1658|799|18|30|23|9|20 22 18 40|{}A&lt;B",
        poster_rows_html(&days)
    );
    assert_eq!(html, expected);
}

#[test]
fn placeholders_in_values_are_filled_too() {
    let fonts = RowFonts { row_font_size: 14, summary_font_size: 12, summary_max_lines: 1 };
    let html = render_poster_html(&[], "{{WIDTH}}", "", "{{TITLE}}", "/a", "/b", &PosterLayout::youtube_16x9(), &fonts);
    assert_eq!(html, "1920");
}

fn unescape(t: &str) -> String {
    t.replace("&quot;", "\"").replace("&gt;", ">").replace("&lt;", "<").replace("&amp;", "&")
}

#[test]
fn unescaping_gives_the_text_back() {
    for s in ["", "plain", "<a href=\"x\">", "&amp;lt;", "&quot;&", "ಮಳೆ > 10%", "&&<<>>\"\""] {
        let e = escape(s);
        assert_eq!(unescape(&e), s);
        assert!(!e.contains('<') && !e.contains('>') && !e.contains('"'));
    }
    assert_eq!(escape("no markup"), "no markup");
}
