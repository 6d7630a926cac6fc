//! The text that is sent for each moment.

use vstd::prelude::*;

verus! {

/// A work day, in the morning.
pub const WORKDAY_MORNING: &'static str =
    "ğŸ¢ğŸ‘ Voi voi taas tÃ¤ytyy herÃ¤tÃ¤ imemÃ¤Ã¤n pomon perse karvoja,, BÃ„Ã„ BÃ„Ã„";

/// A work day, at midday.
pub const WORKDAY_MIDDAY: &'static str =
    "ğŸ’©ğŸ‘ Aika kÃ¤yttÃ¤Ã¤ naapurin Ari-Jukan vinkkiÃ¤ ja kÃ¤ydÃ¤ paskalla niin minulle maksetaan paskomisesta RÃ„H HÃ„H";

/// A work day, after work.
pub const WORKDAY_AFTER_WORK: &'static str =
    "ğŸ ğŸ‘ Vihdoin pÃ¤Ã¤see kotiin niin ei tarvitse kusipÃ¤Ã¤ pomon olla nalkuttamassa";

/// A work day, in the evening.
pub const WORKDAY_EVENING: &'static str =
    "ğŸ›ï¸ğŸ‘ Kohtahan se pitÃ¤Ã¤ mennÃ¤ nukkumaan,, taidanpa laittaa herÃ¤tys kellon valmiiksi";

/// Friday, in the morning.
pub const FRIDAY_MORNING: &'static str =
    "ğŸ›ï¸ğŸ‘â° PIPIPI PIPIPI,,, saatanan herÃ¤tyskello,, onneksi tÃ¤nÃ¤Ã¤n on perjantai niin voi tÃ¶iden jÃ¤lkeen vetÃ¤Ã¤ pÃ¤Ã¤n tyhjÃ¤ksi";

/// Friday, at midday.
pub const FRIDAY_MIDDAY: &'static str =
    "ğŸ’©ğŸ‘ Taidanpa perjantain kunniaksi kÃ¤ydÃ¤ erikois pitkÃ¤llÃ¤ paskalla";

/// Friday, after work.
pub const FRIDAY_AFTER_WORK: &'static str =
    "ğŸªğŸ‘ PÃ¤Ã¤stihÃ¤n se pomo vihdoin lÃ¤htemÃ¤Ã¤n,, nyt Ã¤kkiÃ¤ alkoon";

/// Friday, in the evening.
pub const FRIDAY_EVENING: &'static str =
    "ğŸºğŸ‘ Vittu ettÃ¤ on hyvÃ¤ meno kun ei tarvitse huomenna herÃ¤tÃ¤ ja voin juoda koko yÃ¶n";

/// Saturday, in the morning.
pub const SATURDAY_MORNING: &'static str =
    "ğŸ›ï¸ğŸ‘ NythÃ¤n se voisi olla aika mennÃ¤ nukkumaan kun viinaksetkin on jo loppu";

/// Asleep: Saturday at midday and Sunday in the morning share this one text.
pub const ASLEEP: &'static str =
    "ğŸ›ï¸ Zzz";

/// Saturday, after work.
pub const SATURDAY_AFTER_WORK: &'static str =
    "ğŸªğŸ‘ Voi vittu,, kello on jo noin paljon,, nyt Ã¤kkiÃ¤ kauppaan hakemaan kaljat tÃ¤lle pÃ¤ivÃ¤lle";

/// Saturday, in the evening.
pub const SATURDAY_EVENING: &'static str =
    "ğŸºğŸ‘ Aika lÃ¤hteÃ¤ baariin laulamaan karaokea ja juomaan paikka tyhjÃ¤ksi";

/// Sunday, at midday.
pub const SUNDAY_MIDDAY: &'static str =
    "ğŸ‘ Vittu ettÃ¤ on ihan hirveÃ¤ krapula,, en kyllÃ¤ juo enÃ¤Ã¤ ennen ensi kertaa RÃ„H HÃ„H";

/// Sunday, after work.
pub const SUNDAY_AFTER_WORK: &'static str =
    "ğŸ•ğŸ‘ Olipa hyvÃ¤ Grandiosan pakaste sipuli pizza tasaamaan oloa";

/// Sunday, in the evening.
pub const SUNDAY_EVENING: &'static str =
    "ğŸ›ï¸ğŸ‘ Oi voi,, taas pitÃ¤Ã¤ valmistautua nukkumaan ettÃ¤ jaksaa huomenna leikkiÃ¤ pomon perse karvoilla koko pÃ¤ivÃ¤n";

} // verus!
