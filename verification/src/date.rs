use chrono::Datelike;
use chrono::Timelike;
use std::fmt::Write;
use vstd::prelude::*;

use crate::error::Error;
use crate::text::str_equal;

verus! {

/// A calendar date.
#[derive(PartialEq, Eq, Structural, Debug, Clone, Copy)]
pub struct Date {
    pub year: i32,
    pub month: u32,
    pub day: u32,
}

/// What `chrono::NaiveDate::parse_from_str` reads from a text with a format.
pub uninterp spec fn chrono_parse_date(s: Seq<char>, fmt: Seq<char>) -> Option<Date>;

/// The hour and minute `chrono::NaiveDateTime::parse_from_str` reads from a text with a format.
pub uninterp spec fn chrono_parse_time(s: Seq<char>, fmt: Seq<char>) -> Option<(u32, u32)>;

/// The date `days` days after `d` (`NaiveDate::checked_add_signed`), if there is one.
pub uninterp spec fn chrono_add_days(d: Date, days: i64) -> Option<Date>;

/// The text `NaiveDate::format` writes for a date with a format, if the date
/// exists and the format is valid.
pub uninterp spec fn chrono_format(d: Date, fmt: Seq<char>) -> Option<Seq<char>>;

/// The text `NaiveDate::format_localized` writes for a date with a format in a
/// locale, if the date exists, the format is valid and chrono knows the locale.
pub uninterp spec fn chrono_format_localized(d: Date, fmt: Seq<char>, locale: Seq<char>) -> Option<Seq<char>>;

/// `NaiveDate::parse_from_str`: the date in `s`, read with the format `fmt`.
/// The contract names the result; chrono's parser is not restated.
#[verifier::external_body]
pub(crate) fn parse_date(s: &str, fmt: &str) -> (r: Option<Date>)
    ensures
        r == chrono_parse_date(s@, fmt@),
{
    match chrono::NaiveDate::parse_from_str(s, fmt) {
        Ok(d) => Some(Date { year: d.year(), month: d.month(), day: d.day() }),
        Err(_) => None,
    }
}

/// `NaiveDateTime::parse_from_str`: the hour and the minute in `s`, read with
/// the format `fmt`. The contract names the result, and claims the ranges
/// chrono documents for `Timelike::hour` (0 to 23) and `Timelike::minute` (0 to 59).
#[verifier::external_body]
pub(crate) fn parse_time(s: &str, fmt: &str) -> (r: Option<(u32, u32)>)
    ensures
        r == chrono_parse_time(s@, fmt@),
        r matches Some((h, m)) ==> h < 24 && m < 60,
{
    match chrono::NaiveDateTime::parse_from_str(s, fmt) {
        Ok(t) => Some((t.hour(), t.minute())),
        Err(_) => None,
    }
}

/// `NaiveDate::checked_add_signed` with `TimeDelta::try_days`: the date `days`
/// days after `d`. The contract names the result.
#[verifier::external_body]
pub(crate) fn add_days(d: Date, days: i64) -> (r: Option<Date>)
    ensures
        r == chrono_add_days(d, days),
{
    let date = match chrono::NaiveDate::from_ymd_opt(d.year, d.month, d.day) {
        Some(date) => date,
        None => return None,
    };
    let delta = match chrono::TimeDelta::try_days(days) {
        Some(delta) => delta,
        None => return None,
    };
    match date.checked_add_signed(delta) {
        Some(n) => Some(Date { year: n.year(), month: n.month(), day: n.day() }),
        None => None,
    }
}

/// `NaiveDate::format`: the date written with the format `fmt` (English names).
/// The contract names the result; `None` where the date does not exist or the
/// format is invalid.
#[verifier::external_body]
pub(crate) fn format_date(d: Date, fmt: &str) -> (r: Option<String>)
    ensures
        r matches Some(s) ==> chrono_format(d, fmt@) == Some(s@),
        r is None ==> chrono_format(d, fmt@) is None,
{
    let date = match chrono::NaiveDate::from_ymd_opt(d.year, d.month, d.day) {
        Some(date) => date,
        None => return None,
    };
    let mut s = String::new();
    match write!(s, "{}", date.format(fmt)) {
        Ok(()) => Some(s),
        Err(_) => None,
    }
}

/// `NaiveDate::format_localized`: the date written with the format `fmt` in the
/// locale named `locale`. The contract names the result; `None` where the date
/// does not exist, the format is invalid or chrono does not know the locale.
#[verifier::external_body]
pub(crate) fn format_date_localized(d: Date, fmt: &str, locale: &str) -> (r: Option<String>)
    ensures
        r matches Some(s) ==> chrono_format_localized(d, fmt@, locale@) == Some(s@),
        r is None ==> chrono_format_localized(d, fmt@, locale@) is None,
{
    let date = match chrono::NaiveDate::from_ymd_opt(d.year, d.month, d.day) {
        Some(date) => date,
        None => return None,
    };
    let loc: chrono::Locale = match locale.try_into() {
        Ok(l) => l,
        Err(_) => return None,
    };
    let mut s = String::new();
    match write!(s, "{}", date.format_localized(fmt, loc)) {
        Ok(()) => Some(s),
        Err(_) => None,
    }
}

/// `chrono::Local::now().date_naive()`: today's date by the local clock. Only
/// the ranges of month and day are claimed: which day it is depends on the clock.
#[verifier::external_body]
pub(crate) fn today() -> (r: Date)
    ensures
        1 <= r.month <= 12,
        1 <= r.day <= 31,
{
    let d = chrono::Local::now().date_naive();
    Date { year: d.year(), month: d.month(), day: d.day() }
}

/// Whether `a` comes before `b` in the calendar.
pub open spec fn date_before(a: Date, b: Date) -> bool {
    ||| a.year < b.year
    ||| a.year == b.year && a.month < b.month
    ||| a.year == b.year && a.month == b.month && a.day < b.day
}

pub fn is_before(a: &Date, b: &Date) -> (r: bool)
    ensures
        r == date_before(*a, *b),
{
    a.year < b.year || (a.year == b.year && a.month < b.month) || (a.year == b.year && a.month == b.month
        && a.day < b.day)
}

/// The locales chrono can write dates in, one per line, after a first line.
#[verifier::opaque]
pub open spec fn datetime_locales() -> Seq<Seq<char>> {
    seq![
        "POSIX"@,
        "aa_DJ"@,
        "aa_ER"@,
        "aa_ER@saaho"@,
        "aa_ET"@,
        "af_ZA"@,
        "agr_PE"@,
        "ak_GH"@,
        "am_ET"@,
        "an_ES"@,
        "anp_IN"@,
        "ar_AE"@,
        "ar_BH"@,
        "ar_DZ"@,
        "ar_EG"@,
        "ar_IN"@,
        "ar_IQ"@,
        "ar_JO"@,
        "ar_KW"@,
        "ar_LB"@,
        "ar_LY"@,
        "ar_MA"@,
        "ar_OM"@,
        "ar_QA"@,
        "ar_SA"@,
        "ar_SD"@,
        "ar_SS"@,
        "ar_SY"@,
        "ar_TN"@,
        "ar_YE"@,
        "as_IN"@,
        "ast_ES"@,
        "ayc_PE"@,
        "az_AZ"@,
        "az_IR"@,
        "be_BY"@,
        "be_BY@latin"@,
        "bem_ZM"@,
        "ber_DZ"@,
        "ber_MA"@,
        "bg_BG"@,
        "bhb_IN"@,
        "bho_IN"@,
        "bho_NP"@,
        "bi_VU"@,
        "bn_BD"@,
        "bn_IN"@,
        "bo_CN"@,
        "bo_IN"@,
        "br_FR"@,
        "br_FR@euro"@,
        "brx_IN"@,
        "bs_BA"@,
        "byn_ER"@,
        "ca_AD"@,
        "ca_ES"@,
        "ca_ES@euro"@,
        "ca_ES@valencia"@,
        "ca_FR"@,
        "ca_IT"@,
        "ce_RU"@,
        "chr_US"@,
        "cmn_TW"@,
        "crh_UA"@,
        "cs_CZ"@,
        "csb_PL"@,
        "cv_RU"@,
        "cy_GB"@,
        "da_DK"@,
        "de_AT"@,
        "de_AT@euro"@,
        "de_BE"@,
        "de_BE@euro"@,
        "de_CH"@,
        "de_DE"@,
        "de_DE@euro"@,
        "de_IT"@,
        "de_LI"@,
        "de_LU"@,
        "de_LU@euro"@,
        "doi_IN"@,
        "dsb_DE"@,
        "dv_MV"@,
        "dz_BT"@,
        "el_CY"@,
        "el_GR"@,
        "el_GR@euro"@,
        "en_AG"@,
        "en_AU"@,
        "en_BW"@,
        "en_CA"@,
        "en_DK"@,
        "en_GB"@,
        "en_HK"@,
        "en_IE"@,
        "en_IE@euro"@,
        "en_IL"@,
        "en_IN"@,
        "en_NG"@,
        "en_NZ"@,
        "en_PH"@,
        "en_SC"@,
        "en_SG"@,
        "en_US"@,
        "en_ZA"@,
        "en_ZM"@,
        "en_ZW"@,
        "eo"@,
        "es_AR"@,
        "es_BO"@,
        "es_CL"@,
        "es_CO"@,
        "es_CR"@,
        "es_CU"@,
        "es_DO"@,
        "es_EC"@,
        "es_ES"@,
        "es_ES@euro"@,
        "es_GT"@,
        "es_HN"@,
        "es_MX"@,
        "es_NI"@,
        "es_PA"@,
        "es_PE"@,
        "es_PR"@,
        "es_PY"@,
        "es_SV"@,
        "es_US"@,
        "es_UY"@,
        "es_VE"@,
        "et_EE"@,
        "eu_ES"@,
        "eu_ES@euro"@,
        "fa_IR"@,
        "ff_SN"@,
        "fi_FI"@,
        "fi_FI@euro"@,
        "fil_PH"@,
        "fo_FO"@,
        "fr_BE"@,
        "fr_BE@euro"@,
        "fr_CA"@,
        "fr_CH"@,
        "fr_FR"@,
        "fr_FR@euro"@,
        "fr_LU"@,
        "fr_LU@euro"@,
        "fur_IT"@,
        "fy_DE"@,
        "fy_NL"@,
        "ga_IE"@,
        "ga_IE@euro"@,
        "gd_GB"@,
        "gez_ER"@,
        "gez_ER@abegede"@,
        "gez_ET"@,
        "gez_ET@abegede"@,
        "gl_ES"@,
        "gl_ES@euro"@,
        "gu_IN"@,
        "gv_GB"@,
        "ha_NG"@,
        "hak_TW"@,
        "he_IL"@,
        "hi_IN"@,
        "hif_FJ"@,
        "hne_IN"@,
        "hr_HR"@,
        "hsb_DE"@,
        "ht_HT"@,
        "hu_HU"@,
        "hy_AM"@,
        "ia_FR"@,
        "id_ID"@,
        "ig_NG"@,
        "ik_CA"@,
        "is_IS"@,
        "it_CH"@,
        "it_IT"@,
        "it_IT@euro"@,
        "iu_CA"@,
        "ja_JP"@,
        "ka_GE"@,
        "kab_DZ"@,
        "kk_KZ"@,
        "kl_GL"@,
        "km_KH"@,
        "kn_IN"@,
        "ko_KR"@,
        "kok_IN"@,
        "ks_IN"@,
        "ks_IN@devanagari"@,
        "ku_TR"@,
        "kw_GB"@,
        "ky_KG"@,
        "lb_LU"@,
        "lg_UG"@,
        "li_BE"@,
        "li_NL"@,
        "lij_IT"@,
        "ln_CD"@,
        "lo_LA"@,
        "lt_LT"@,
        "lv_LV"@,
        "lzh_TW"@,
        "mag_IN"@,
        "mai_IN"@,
        "mai_NP"@,
        "mfe_MU"@,
        "mg_MG"@,
        "mhr_RU"@,
        "mi_NZ"@,
        "miq_NI"@,
        "mjw_IN"@,
        "mk_MK"@,
        "ml_IN"@,
        "mn_MN"@,
        "mni_IN"@,
        "mnw_MM"@,
        "mr_IN"@,
        "ms_MY"@,
        "mt_MT"@,
        "my_MM"@,
        "nan_TW"@,
        "nan_TW@latin"@,
        "nb_NO"@,
        "nds_DE"@,
        "nds_NL"@,
        "ne_NP"@,
        "nhn_MX"@,
        "niu_NU"@,
        "niu_NZ"@,
        "nl_AW"@,
        "nl_BE"@,
        "nl_BE@euro"@,
        "nl_NL"@,
        "nl_NL@euro"@,
        "nn_NO"@,
        "nr_ZA"@,
        "nso_ZA"@,
        "oc_FR"@,
        "om_ET"@,
        "om_KE"@,
        "or_IN"@,
        "os_RU"@,
        "pa_IN"@,
        "pa_PK"@,
        "pap_AW"@,
        "pap_CW"@,
        "pl_PL"@,
        "ps_AF"@,
        "pt_BR"@,
        "pt_PT"@,
        "pt_PT@euro"@,
        "quz_PE"@,
        "raj_IN"@,
        "ro_RO"@,
        "ru_RU"@,
        "ru_UA"@,
        "rw_RW"@,
        "sa_IN"@,
        "sah_RU"@,
        "sat_IN"@,
        "sc_IT"@,
        "sd_IN"@,
        "sd_IN@devanagari"@,
        "se_NO"@,
        "sgs_LT"@,
        "shn_MM"@,
        "shs_CA"@,
        "si_LK"@,
        "sid_ET"@,
        "sk_SK"@,
        "sl_SI"@,
        "sm_WS"@,
        "so_DJ"@,
        "so_ET"@,
        "so_KE"@,
        "so_SO"@,
        "sq_AL"@,
        "sq_MK"@,
        "sr_ME"@,
        "sr_RS"@,
        "sr_RS@latin"@,
        "ss_ZA"@,
        "st_ZA"@,
        "sv_FI"@,
        "sv_FI@euro"@,
        "sv_SE"@,
        "sw_KE"@,
        "sw_TZ"@,
        "szl_PL"@,
        "ta_IN"@,
        "ta_LK"@,
        "tcy_IN"@,
        "te_IN"@,
        "tg_TJ"@,
        "th_TH"@,
        "the_NP"@,
        "ti_ER"@,
        "ti_ET"@,
        "tig_ER"@,
        "tk_TM"@,
        "tl_PH"@,
        "tn_ZA"@,
        "to_TO"@,
        "tpi_PG"@,
        "tr_CY"@,
        "tr_TR"@,
        "ts_ZA"@,
        "tt_RU"@,
        "tt_RU@iqtelif"@,
        "ug_CN"@,
        "uk_UA"@,
        "unm_US"@,
        "ur_IN"@,
        "ur_PK"@,
        "uz_UZ"@,
        "uz_UZ@cyrillic"@,
        "ve_ZA"@,
        "vi_VN"@,
        "wa_BE"@,
        "wa_BE@euro"@,
        "wae_CH"@,
        "wal_ET"@,
        "wo_SN"@,
        "xh_ZA"@,
        "yi_US"@,
        "yo_NG"@,
        "yue_HK"@,
        "yuw_PG"@,
        "zh_CN"@,
        "zh_HK"@,
        "zh_SG"@,
        "zh_TW"@,
        "zu_ZA"@,
    ]
}

proof fn lemma_datetime_locales_len()
    ensures
        datetime_locales().len() == 336,
{
    reveal(datetime_locales);
}

/// The lines of the list of locales.
pub fn datetime_locale_lines() -> (r: Vec<&'static str>)
    ensures
        r@.map_values(|s: &str| s@) == datetime_locales(),
{
    let r: Vec<&'static str> = vec!["POSIX", "aa_DJ", "aa_ER", "aa_ER@saaho", "aa_ET", "af_ZA", "agr_PE", "ak_GH", "am_ET", "an_ES", "anp_IN", "ar_AE", "ar_BH", "ar_DZ", "ar_EG", "ar_IN", "ar_IQ", "ar_JO", "ar_KW", "ar_LB", "ar_LY", "ar_MA", "ar_OM", "ar_QA", "ar_SA", "ar_SD", "ar_SS", "ar_SY", "ar_TN", "ar_YE", "as_IN", "ast_ES", "ayc_PE", "az_AZ", "az_IR", "be_BY", "be_BY@latin", "bem_ZM", "ber_DZ", "ber_MA", "bg_BG", "bhb_IN", "bho_IN", "bho_NP", "bi_VU", "bn_BD", "bn_IN", "bo_CN", "bo_IN", "br_FR", "br_FR@euro", "brx_IN", "bs_BA", "byn_ER", "ca_AD", "ca_ES", "ca_ES@euro", "ca_ES@valencia", "ca_FR", "ca_IT", "ce_RU", "chr_US", "cmn_TW", "crh_UA", "cs_CZ", "csb_PL", "cv_RU", "cy_GB", "da_DK", "de_AT", "de_AT@euro", "de_BE", "de_BE@euro", "de_CH", "de_DE", "de_DE@euro", "de_IT", "de_LI", "de_LU", "de_LU@euro", "doi_IN", "dsb_DE", "dv_MV", "dz_BT", "el_CY", "el_GR", "el_GR@euro", "en_AG", "en_AU", "en_BW", "en_CA", "en_DK", "en_GB", "en_HK", "en_IE", "en_IE@euro", "en_IL", "en_IN", "en_NG", "en_NZ", "en_PH", "en_SC", "en_SG", "en_US", "en_ZA", "en_ZM", "en_ZW", "eo", "es_AR", "es_BO", "es_CL", "es_CO", "es_CR", "es_CU", "es_DO", "es_EC", "es_ES", "es_ES@euro", "es_GT", "es_HN", "es_MX", "es_NI", "es_PA", "es_PE", "es_PR", "es_PY", "es_SV", "es_US", "es_UY", "es_VE", "et_EE", "eu_ES", "eu_ES@euro", "fa_IR", "ff_SN", "fi_FI", "fi_FI@euro", "fil_PH", "fo_FO", "fr_BE", "fr_BE@euro", "fr_CA", "fr_CH", "fr_FR", "fr_FR@euro", "fr_LU", "fr_LU@euro", "fur_IT", "fy_DE", "fy_NL", "ga_IE", "ga_IE@euro", "gd_GB", "gez_ER", "gez_ER@abegede", "gez_ET", "gez_ET@abegede", "gl_ES", "gl_ES@euro", "gu_IN", "gv_GB", "ha_NG", "hak_TW", "he_IL", "hi_IN", "hif_FJ", "hne_IN", "hr_HR", "hsb_DE", "ht_HT", "hu_HU", "hy_AM", "ia_FR", "id_ID", "ig_NG", "ik_CA", "is_IS", "it_CH", "it_IT", "it_IT@euro", "iu_CA", "ja_JP", "ka_GE", "kab_DZ", "kk_KZ", "kl_GL", "km_KH", "kn_IN", "ko_KR", "kok_IN", "ks_IN", "ks_IN@devanagari", "ku_TR", "kw_GB", "ky_KG", "lb_LU", "lg_UG", "li_BE", "li_NL", "lij_IT", "ln_CD", "lo_LA", "lt_LT", "lv_LV", "lzh_TW", "mag_IN", "mai_IN", "mai_NP", "mfe_MU", "mg_MG", "mhr_RU", "mi_NZ", "miq_NI", "mjw_IN", "mk_MK", "ml_IN", "mn_MN", "mni_IN", "mnw_MM", "mr_IN", "ms_MY", "mt_MT", "my_MM", "nan_TW", "nan_TW@latin", "nb_NO", "nds_DE", "nds_NL", "ne_NP", "nhn_MX", "niu_NU", "niu_NZ", "nl_AW", "nl_BE", "nl_BE@euro", "nl_NL", "nl_NL@euro", "nn_NO", "nr_ZA", "nso_ZA", "oc_FR", "om_ET", "om_KE", "or_IN", "os_RU", "pa_IN", "pa_PK", "pap_AW", "pap_CW", "pl_PL", "ps_AF", "pt_BR", "pt_PT", "pt_PT@euro", "quz_PE", "raj_IN", "ro_RO", "ru_RU", "ru_UA", "rw_RW", "sa_IN", "sah_RU", "sat_IN", "sc_IT", "sd_IN", "sd_IN@devanagari", "se_NO", "sgs_LT", "shn_MM", "shs_CA", "si_LK", "sid_ET", "sk_SK", "sl_SI", "sm_WS", "so_DJ", "so_ET", "so_KE", "so_SO", "sq_AL", "sq_MK", "sr_ME", "sr_RS", "sr_RS@latin", "ss_ZA", "st_ZA", "sv_FI", "sv_FI@euro", "sv_SE", "sw_KE", "sw_TZ", "szl_PL", "ta_IN", "ta_LK", "tcy_IN", "te_IN", "tg_TJ", "th_TH", "the_NP", "ti_ER", "ti_ET", "tig_ER", "tk_TM", "tl_PH", "tn_ZA", "to_TO", "tpi_PG", "tr_CY", "tr_TR", "ts_ZA", "tt_RU", "tt_RU@iqtelif", "ug_CN", "uk_UA", "unm_US", "ur_IN", "ur_PK", "uz_UZ", "uz_UZ@cyrillic", "ve_ZA", "vi_VN", "wa_BE", "wa_BE@euro", "wae_CH", "wal_ET", "wo_SN", "xh_ZA", "yi_US", "yo_NG", "yue_HK", "yuw_PG", "zh_CN", "zh_HK", "zh_SG", "zh_TW", "zu_ZA"];
    proof {
        reveal(datetime_locales);
    }
    assert(r@.map_values(|s: &str| s@) =~= datetime_locales());
    r
}

/// The language part of a locale name: what comes before its first underscore.
pub open spec fn lang_part(s: Seq<char>) -> Seq<char>
    decreases s.len(),
{
    if s.len() == 0 {
        s
    } else if s[0] == '_' {
        Seq::empty()
    } else {
        seq![s[0]] + lang_part(s.drop_first())
    }
}

/// The first index from `from` on whose name is `lang`.
pub open spec fn first_exact(names: Seq<Seq<char>>, lang: Seq<char>, from: int) -> Option<int>
    decreases names.len() - from,
{
    if from < 0 || from >= names.len() {
        None
    } else if names[from] == lang {
        Some(from)
    } else {
        first_exact(names, lang, from + 1)
    }
}

/// The first index from `from` on whose name's language part is `lang`.
pub open spec fn first_language(names: Seq<Seq<char>>, lang: Seq<char>, from: int) -> Option<int>
    decreases names.len() - from,
{
    if from < 0 || from >= names.len() {
        None
    } else if lang_part(names[from]) == lang {
        Some(from)
    } else {
        first_language(names, lang, from + 1)
    }
}

/// The locale a language code picks: the locale of that exact name, else the
/// first locale of that language, among the lines after the first.
pub open spec fn matching_locale(lang: Seq<char>) -> Option<Seq<char>> {
    let names = datetime_locales();
    match first_exact(names, lang, 1) {
        Some(i) => Some(names[i]),
        None => match first_language(names, lang, 1) {
            Some(i) => Some(names[i]),
            None => None,
        },
    }
}

/// The language part of a locale name.
pub fn language_of(s: &str) -> (r: String)
    ensures
        r@ == lang_part(s@),
{
    let n = s.unicode_len();
    let mut r = String::new();
    let mut i: usize = 0;
    assert(s@.skip(0) =~= s@);
    assert(r@ + lang_part(s@) =~= lang_part(s@));
    while i < n
        invariant
            i <= n,
            n == s@.len(),
            lang_part(s@) == r@ + lang_part(s@.skip(i as int)),
        decreases n - i,
    {
        let c = s.get_char(i);
        proof {
            assert(s@.skip(i as int).drop_first() =~= s@.skip(i + 1));
            assert(s@.skip(i as int)[0] == c);
        }
        if c == '_' {
            assert(lang_part(s@.skip(i as int)) == Seq::<char>::empty());
            assert(r@ + Seq::<char>::empty() =~= r@);
            return r;
        }
        crate::text::push_char(&mut r, c);
        proof {
            assert(lang_part(s@.skip(i as int)) == seq![c] + lang_part(s@.skip(i + 1)));
            assert(r@ + lang_part(s@.skip(i + 1)) =~= old_r_plus(r@, c, lang_part(s@.skip(i + 1))));
        }
        i = i + 1;
    }
    assert(s@.skip(n as int) =~= Seq::<char>::empty());
    assert(r@ + Seq::<char>::empty() =~= r@);
    r
}

spec fn old_r_plus(r: Seq<char>, c: char, rest: Seq<char>) -> Seq<char> {
    r + rest
}

/// The locale of the list that a language code picks.
pub fn find_locale(lang: &str) -> (r: Option<&'static str>)
    ensures
        r matches Some(l) ==> matching_locale(lang@) == Some(l@),
        r is None ==> matching_locale(lang@) is None,
{
    let lines = datetime_locale_lines();
    let ghost names = datetime_locales();
    proof {
        lemma_datetime_locales_len();
    }
    let mut i: usize = 1;
    while i < lines.len()
        invariant
            1 <= i <= lines@.len(),
            lines@.map_values(|s: &str| s@) == names,
            names == datetime_locales(),
            first_exact(names, lang@, 1) == first_exact(names, lang@, i as int),
        decreases lines@.len() - i,
    {
        assert(lines@.map_values(|s: &str| s@)[i as int] == lines@[i as int]@);
        if str_equal(lines[i], lang) {
            assert(first_exact(names, lang@, i as int) == Some(i as int));
            assert(matching_locale(lang@) == Some(names[i as int]));
            return Some(lines[i]);
        }
        i = i + 1;
    }
    assert(first_exact(names, lang@, i as int) is None);
    let mut j: usize = 1;
    while j < lines.len()
        invariant
            1 <= j <= lines@.len(),
            lines@.map_values(|s: &str| s@) == names,
            names == datetime_locales(),
            first_exact(names, lang@, 1) is None,
            first_language(names, lang@, 1) == first_language(names, lang@, j as int),
        decreases lines@.len() - j,
    {
        assert(lines@.map_values(|s: &str| s@)[j as int] == lines@[j as int]@);
        let short_lang_code = language_of(lines[j]);
        if str_equal(short_lang_code.as_str(), lang) {
            assert(first_language(names, lang@, j as int) == Some(j as int));
            assert(matching_locale(lang@) == Some(names[j as int]));
            return Some(lines[j]);
        }
        j = j + 1;
    }
    None
}

/// The format a date is written with: with the year for a date before `today`.
pub open spec fn date_format(dt: Date, today: Date) -> Seq<char> {
    "%a, %e %b"@ + if date_before(dt, today) { " %Y"@ } else { Seq::empty() }
}

/// A date written for a language, on the day `today`: in the locale the
/// language picks, or in English where it picks none.
pub open spec fn localized_date(dt: Date, lang: Seq<char>, today: Date) -> Option<Seq<char>> {
    match matching_locale(lang) {
        Some(locale) => chrono_format_localized(dt, date_format(dt, today), locale),
        None => chrono_format(dt, date_format(dt, today)),
    }
}

/// The error for a date that cannot be written for a language: the locale
/// the language picks is unknown to chrono, or the date cannot be written.
pub open spec fn localized_date_error(lang: Seq<char>) -> Error {
    if matching_locale(lang) is Some {
        Error::UnknownLocale
    } else {
        Error::InvalidDate
    }
}

/// Writes a date for a language, on the day `today`.
pub fn localize_date_on(dt: Date, lang: &str, today: Date) -> (r: Result<String, Error>)
    ensures
        match localized_date(dt, lang@, today) {
            Some(t) => r matches Ok(s) && s@ == t,
            None => r matches Err(e) && e == localized_date_error(lang@),
        },
{
    let mut format = "%a, %e %b".to_string();
    if is_before(&dt, &today) {
        format.append(" %Y");
    }
    assert(format@ == date_format(dt, today));
    match find_locale(lang) {
        Some(locale) => match format_date_localized(dt, format.as_str(), locale) {
            Some(s) => Ok(s),
            None => Err(Error::UnknownLocale),
        },
        None => match format_date(dt, format.as_str()) {
            Some(s) => Ok(s),
            None => Err(Error::InvalidDate),
        },
    }
}

/// Writes a date for a language: with the year for a date before today.
pub fn localize_date(dt: Date, lang: &str) -> (r: Result<String, Error>)
    ensures
        exists|today: Date| match #[trigger] localized_date(dt, lang@, today) {
            Some(t) => r matches Ok(s) && s@ == t,
            None => r matches Err(e) && e == localized_date_error(lang@),
        },
{
    let t = today();
    localize_date_on(dt, lang, t)
}

} // verus!
