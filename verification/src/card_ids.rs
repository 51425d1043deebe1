//! Card identities the rules refer to by printing, with their printed id codes.
use vstd::prelude::*;

use crate::text::str_equal;

verus! {

#[derive(Debug, Clone, Copy, PartialEq, Eq, Hash, Structural)]
pub enum CardId {
    A1001Bulbasaur,
    A1002Ivysaur,
    A1003Venusaur,
    A1004VenusaurEx,
    A1005Caterpie,
    A1008Weedle,
    A1021Exeggcute,
    A1023ExeggutorEx,
    A1033Charmander,
    A1053Squirtle,
    A1055Blastoise,
    A1056BlastoiseEx,
    A1057Psyduck,
    A1061Poliwrath,
    A1076StarmieEx,
    A1094Pikachu,
    A1128Mewtwo,
    A1141Mankey,
    A1142Primeape,
    A1143Machop,
    A1163Grapploct,
    A1176Koffing,
    A1198Farfetchd,
    A1211Snorlax,
    A1219Erika,
    A1220Misty,
    A1267Misty,
    A1a017Magikarp,
    A1a056Druddigon,
    A2147GiantCape,
    A2a071ArceusEx,
    A2b028Pawmot,
    A2b072TeamRocketGrunt,
    A2b091TeamRocketGrunt,
    A3054Pyukumuku,
    A3a052Ferrothorn,
    A3b016Vaporeon,
    A3b069Penny,
    A4018Yanma,
    A4081Natu,
    A4082Xatu,
    A4153SteelApron,
    A4156Will,
    A4159Fisher,
    A4199Fisher,
    A4a003JumpluffEx,
    A4a065Zangoose,
    A4a067InflatableBoat,
    A4a068MemoryLight,
    A4b320GiantCape,
    A4b321GiantCape,
    B1127Hariyama,
    B1160DragalgeEx,
    B1215HittingHammer,
    B1263DragalgeEx,
    B1281DragalgeEx,
    B1297Poliwrath,
    B2070Meloetta,
    B2097AlolanMuk,
    B2103Spiritomb,
    B2145LuckyIcePop,
    B2a086ElectricGenerator,
    B2a087BigAirBalloon,
    B2a091Arven,
    B2a093Mesagoza,
    B2a108Arven,
    B2a115Arven,
    B2a131ElectricGenerator,
    B3025Victini,
    B3081MegaLucarioEx,
    B3231DragalgeEx,
    B3b001Caterpie,
    B3b041MegaSableyeEx,
    B3b064SmallBalloon,
    B4115Revavroom,
    B4145OrderPad,
    B4149ClearVeil,
    B4a018HisuianBasculegion,
    B4a021TeamRocketsZapdosEx,
    B4a051Gholdengo,
    B4a069TeamRocketsResearcher,
    B4a070TeamRocketsMasterPlan,
    B4a072Arcade,
    B4a085TeamRocketsResearcher,
    B4a086TeamRocketsMasterPlan,
    B4a094TeamRocketsMasterPlan,
    B4a109Gholdengo,
    PA001Potion,
    PA002XSpeed,
    PA005PokeBall,
    PA006RedCard,
    PA007ProfessorsResearch,
    PA017Mankey,
    PA054Pawmot,
    PB024MegaLatiosEx,
    PB049Victini,
    PB088TeamRocketsScyther,
}

impl CardId {
    /// The printed id code of this card, e.g. `"A1 055"`.
    pub open spec fn spec_code(self) -> Seq<char> {
        match self {
            CardId::A1001Bulbasaur => "A1 001"@,
            CardId::A1002Ivysaur => "A1 002"@,
            CardId::A1003Venusaur => "A1 003"@,
            CardId::A1004VenusaurEx => "A1 004"@,
            CardId::A1005Caterpie => "A1 005"@,
            CardId::A1008Weedle => "A1 008"@,
            CardId::A1021Exeggcute => "A1 021"@,
            CardId::A1023ExeggutorEx => "A1 023"@,
            CardId::A1033Charmander => "A1 033"@,
            CardId::A1053Squirtle => "A1 053"@,
            CardId::A1055Blastoise => "A1 055"@,
            CardId::A1056BlastoiseEx => "A1 056"@,
            CardId::A1057Psyduck => "A1 057"@,
            CardId::A1061Poliwrath => "A1 061"@,
            CardId::A1076StarmieEx => "A1 076"@,
            CardId::A1094Pikachu => "A1 094"@,
            CardId::A1128Mewtwo => "A1 128"@,
            CardId::A1141Mankey => "A1 141"@,
            CardId::A1142Primeape => "A1 142"@,
            CardId::A1143Machop => "A1 143"@,
            CardId::A1163Grapploct => "A1 163"@,
            CardId::A1176Koffing => "A1 176"@,
            CardId::A1198Farfetchd => "A1 198"@,
            CardId::A1211Snorlax => "A1 211"@,
            CardId::A1219Erika => "A1 219"@,
            CardId::A1220Misty => "A1 220"@,
            CardId::A1267Misty => "A1 267"@,
            CardId::A1a017Magikarp => "A1a 017"@,
            CardId::A1a056Druddigon => "A1a 056"@,
            CardId::A2147GiantCape => "A2 147"@,
            CardId::A2a071ArceusEx => "A2a 071"@,
            CardId::A2b028Pawmot => "A2b 028"@,
            CardId::A2b072TeamRocketGrunt => "A2b 072"@,
            CardId::A2b091TeamRocketGrunt => "A2b 091"@,
            CardId::A3054Pyukumuku => "A3 054"@,
            CardId::A3a052Ferrothorn => "A3a 052"@,
            CardId::A3b016Vaporeon => "A3b 016"@,
            CardId::A3b069Penny => "A3b 069"@,
            CardId::A4018Yanma => "A4 018"@,
            CardId::A4081Natu => "A4 081"@,
            CardId::A4082Xatu => "A4 082"@,
            CardId::A4153SteelApron => "A4 153"@,
            CardId::A4156Will => "A4 156"@,
            CardId::A4159Fisher => "A4 159"@,
            CardId::A4199Fisher => "A4 199"@,
            CardId::A4a003JumpluffEx => "A4a 003"@,
            CardId::A4a065Zangoose => "A4a 065"@,
            CardId::A4a067InflatableBoat => "A4a 067"@,
            CardId::A4a068MemoryLight => "A4a 068"@,
            CardId::A4b320GiantCape => "A4b 320"@,
            CardId::A4b321GiantCape => "A4b 321"@,
            CardId::B1127Hariyama => "B1 127"@,
            CardId::B1160DragalgeEx => "B1 160"@,
            CardId::B1215HittingHammer => "B1 215"@,
            CardId::B1263DragalgeEx => "B1 263"@,
            CardId::B1281DragalgeEx => "B1 281"@,
            CardId::B1297Poliwrath => "B1 297"@,
            CardId::B2070Meloetta => "B2 070"@,
            CardId::B2097AlolanMuk => "B2 097"@,
            CardId::B2103Spiritomb => "B2 103"@,
            CardId::B2145LuckyIcePop => "B2 145"@,
            CardId::B2a086ElectricGenerator => "B2a 086"@,
            CardId::B2a087BigAirBalloon => "B2a 087"@,
            CardId::B2a091Arven => "B2a 091"@,
            CardId::B2a093Mesagoza => "B2a 093"@,
            CardId::B2a108Arven => "B2a 108"@,
            CardId::B2a115Arven => "B2a 115"@,
            CardId::B2a131ElectricGenerator => "B2a 131"@,
            CardId::B3025Victini => "B3 025"@,
            CardId::B3081MegaLucarioEx => "B3 081"@,
            CardId::B3231DragalgeEx => "B3 231"@,
            CardId::B3b001Caterpie => "B3b 001"@,
            CardId::B3b041MegaSableyeEx => "B3b 041"@,
            CardId::B3b064SmallBalloon => "B3b 064"@,
            CardId::B4115Revavroom => "B4 115"@,
            CardId::B4145OrderPad => "B4 145"@,
            CardId::B4149ClearVeil => "B4 149"@,
            CardId::B4a018HisuianBasculegion => "B4a 018"@,
            CardId::B4a021TeamRocketsZapdosEx => "B4a 021"@,
            CardId::B4a051Gholdengo => "B4a 051"@,
            CardId::B4a069TeamRocketsResearcher => "B4a 069"@,
            CardId::B4a070TeamRocketsMasterPlan => "B4a 070"@,
            CardId::B4a072Arcade => "B4a 072"@,
            CardId::B4a085TeamRocketsResearcher => "B4a 085"@,
            CardId::B4a086TeamRocketsMasterPlan => "B4a 086"@,
            CardId::B4a094TeamRocketsMasterPlan => "B4a 094"@,
            CardId::B4a109Gholdengo => "B4a 109"@,
            CardId::PA001Potion => "P-A 001"@,
            CardId::PA002XSpeed => "P-A 002"@,
            CardId::PA005PokeBall => "P-A 005"@,
            CardId::PA006RedCard => "P-A 006"@,
            CardId::PA007ProfessorsResearch => "P-A 007"@,
            CardId::PA017Mankey => "P-A 017"@,
            CardId::PA054Pawmot => "P-A 054"@,
            CardId::PB024MegaLatiosEx => "P-B 024"@,
            CardId::PB049Victini => "P-B 049"@,
            CardId::PB088TeamRocketsScyther => "P-B 088"@,
        }
    }

    pub fn code(self) -> (r: &'static str)
        ensures
            r@ == self.spec_code(),
    {
        match self {
            CardId::A1001Bulbasaur => "A1 001",
            CardId::A1002Ivysaur => "A1 002",
            CardId::A1003Venusaur => "A1 003",
            CardId::A1004VenusaurEx => "A1 004",
            CardId::A1005Caterpie => "A1 005",
            CardId::A1008Weedle => "A1 008",
            CardId::A1021Exeggcute => "A1 021",
            CardId::A1023ExeggutorEx => "A1 023",
            CardId::A1033Charmander => "A1 033",
            CardId::A1053Squirtle => "A1 053",
            CardId::A1055Blastoise => "A1 055",
            CardId::A1056BlastoiseEx => "A1 056",
            CardId::A1057Psyduck => "A1 057",
            CardId::A1061Poliwrath => "A1 061",
            CardId::A1076StarmieEx => "A1 076",
            CardId::A1094Pikachu => "A1 094",
            CardId::A1128Mewtwo => "A1 128",
            CardId::A1141Mankey => "A1 141",
            CardId::A1142Primeape => "A1 142",
            CardId::A1143Machop => "A1 143",
            CardId::A1163Grapploct => "A1 163",
            CardId::A1176Koffing => "A1 176",
            CardId::A1198Farfetchd => "A1 198",
            CardId::A1211Snorlax => "A1 211",
            CardId::A1219Erika => "A1 219",
            CardId::A1220Misty => "A1 220",
            CardId::A1267Misty => "A1 267",
            CardId::A1a017Magikarp => "A1a 017",
            CardId::A1a056Druddigon => "A1a 056",
            CardId::A2147GiantCape => "A2 147",
            CardId::A2a071ArceusEx => "A2a 071",
            CardId::A2b028Pawmot => "A2b 028",
            CardId::A2b072TeamRocketGrunt => "A2b 072",
            CardId::A2b091TeamRocketGrunt => "A2b 091",
            CardId::A3054Pyukumuku => "A3 054",
            CardId::A3a052Ferrothorn => "A3a 052",
            CardId::A3b016Vaporeon => "A3b 016",
            CardId::A3b069Penny => "A3b 069",
            CardId::A4018Yanma => "A4 018",
            CardId::A4081Natu => "A4 081",
            CardId::A4082Xatu => "A4 082",
            CardId::A4153SteelApron => "A4 153",
            CardId::A4156Will => "A4 156",
            CardId::A4159Fisher => "A4 159",
            CardId::A4199Fisher => "A4 199",
            CardId::A4a003JumpluffEx => "A4a 003",
            CardId::A4a065Zangoose => "A4a 065",
            CardId::A4a067InflatableBoat => "A4a 067",
            CardId::A4a068MemoryLight => "A4a 068",
            CardId::A4b320GiantCape => "A4b 320",
            CardId::A4b321GiantCape => "A4b 321",
            CardId::B1127Hariyama => "B1 127",
            CardId::B1160DragalgeEx => "B1 160",
            CardId::B1215HittingHammer => "B1 215",
            CardId::B1263DragalgeEx => "B1 263",
            CardId::B1281DragalgeEx => "B1 281",
            CardId::B1297Poliwrath => "B1 297",
            CardId::B2070Meloetta => "B2 070",
            CardId::B2097AlolanMuk => "B2 097",
            CardId::B2103Spiritomb => "B2 103",
            CardId::B2145LuckyIcePop => "B2 145",
            CardId::B2a086ElectricGenerator => "B2a 086",
            CardId::B2a087BigAirBalloon => "B2a 087",
            CardId::B2a091Arven => "B2a 091",
            CardId::B2a093Mesagoza => "B2a 093",
            CardId::B2a108Arven => "B2a 108",
            CardId::B2a115Arven => "B2a 115",
            CardId::B2a131ElectricGenerator => "B2a 131",
            CardId::B3025Victini => "B3 025",
            CardId::B3081MegaLucarioEx => "B3 081",
            CardId::B3231DragalgeEx => "B3 231",
            CardId::B3b001Caterpie => "B3b 001",
            CardId::B3b041MegaSableyeEx => "B3b 041",
            CardId::B3b064SmallBalloon => "B3b 064",
            CardId::B4115Revavroom => "B4 115",
            CardId::B4145OrderPad => "B4 145",
            CardId::B4149ClearVeil => "B4 149",
            CardId::B4a018HisuianBasculegion => "B4a 018",
            CardId::B4a021TeamRocketsZapdosEx => "B4a 021",
            CardId::B4a051Gholdengo => "B4a 051",
            CardId::B4a069TeamRocketsResearcher => "B4a 069",
            CardId::B4a070TeamRocketsMasterPlan => "B4a 070",
            CardId::B4a072Arcade => "B4a 072",
            CardId::B4a085TeamRocketsResearcher => "B4a 085",
            CardId::B4a086TeamRocketsMasterPlan => "B4a 086",
            CardId::B4a094TeamRocketsMasterPlan => "B4a 094",
            CardId::B4a109Gholdengo => "B4a 109",
            CardId::PA001Potion => "P-A 001",
            CardId::PA002XSpeed => "P-A 002",
            CardId::PA005PokeBall => "P-A 005",
            CardId::PA006RedCard => "P-A 006",
            CardId::PA007ProfessorsResearch => "P-A 007",
            CardId::PA017Mankey => "P-A 017",
            CardId::PA054Pawmot => "P-A 054",
            CardId::PB024MegaLatiosEx => "P-B 024",
            CardId::PB049Victini => "P-B 049",
            CardId::PB088TeamRocketsScyther => "P-B 088",
        }
    }
}

/// The identity whose code is `code`, among the identities the rules refer to.
pub open spec fn spec_card_id_from_code(code: Seq<char>) -> Option<CardId> {
    if code == CardId::A1001Bulbasaur.spec_code() {
        Some(CardId::A1001Bulbasaur)
    } else if code == CardId::A1002Ivysaur.spec_code() {
        Some(CardId::A1002Ivysaur)
    } else if code == CardId::A1003Venusaur.spec_code() {
        Some(CardId::A1003Venusaur)
    } else if code == CardId::A1004VenusaurEx.spec_code() {
        Some(CardId::A1004VenusaurEx)
    } else if code == CardId::A1005Caterpie.spec_code() {
        Some(CardId::A1005Caterpie)
    } else if code == CardId::A1008Weedle.spec_code() {
        Some(CardId::A1008Weedle)
    } else if code == CardId::A1021Exeggcute.spec_code() {
        Some(CardId::A1021Exeggcute)
    } else if code == CardId::A1023ExeggutorEx.spec_code() {
        Some(CardId::A1023ExeggutorEx)
    } else if code == CardId::A1033Charmander.spec_code() {
        Some(CardId::A1033Charmander)
    } else if code == CardId::A1053Squirtle.spec_code() {
        Some(CardId::A1053Squirtle)
    } else if code == CardId::A1055Blastoise.spec_code() {
        Some(CardId::A1055Blastoise)
    } else if code == CardId::A1056BlastoiseEx.spec_code() {
        Some(CardId::A1056BlastoiseEx)
    } else if code == CardId::A1057Psyduck.spec_code() {
        Some(CardId::A1057Psyduck)
    } else if code == CardId::A1061Poliwrath.spec_code() {
        Some(CardId::A1061Poliwrath)
    } else if code == CardId::A1076StarmieEx.spec_code() {
        Some(CardId::A1076StarmieEx)
    } else if code == CardId::A1094Pikachu.spec_code() {
        Some(CardId::A1094Pikachu)
    } else if code == CardId::A1128Mewtwo.spec_code() {
        Some(CardId::A1128Mewtwo)
    } else if code == CardId::A1141Mankey.spec_code() {
        Some(CardId::A1141Mankey)
    } else if code == CardId::A1142Primeape.spec_code() {
        Some(CardId::A1142Primeape)
    } else if code == CardId::A1143Machop.spec_code() {
        Some(CardId::A1143Machop)
    } else if code == CardId::A1163Grapploct.spec_code() {
        Some(CardId::A1163Grapploct)
    } else if code == CardId::A1176Koffing.spec_code() {
        Some(CardId::A1176Koffing)
    } else if code == CardId::A1198Farfetchd.spec_code() {
        Some(CardId::A1198Farfetchd)
    } else if code == CardId::A1211Snorlax.spec_code() {
        Some(CardId::A1211Snorlax)
    } else if code == CardId::A1219Erika.spec_code() {
        Some(CardId::A1219Erika)
    } else if code == CardId::A1220Misty.spec_code() {
        Some(CardId::A1220Misty)
    } else if code == CardId::A1267Misty.spec_code() {
        Some(CardId::A1267Misty)
    } else if code == CardId::A1a017Magikarp.spec_code() {
        Some(CardId::A1a017Magikarp)
    } else if code == CardId::A1a056Druddigon.spec_code() {
        Some(CardId::A1a056Druddigon)
    } else if code == CardId::A2147GiantCape.spec_code() {
        Some(CardId::A2147GiantCape)
    } else if code == CardId::A2a071ArceusEx.spec_code() {
        Some(CardId::A2a071ArceusEx)
    } else if code == CardId::A2b028Pawmot.spec_code() {
        Some(CardId::A2b028Pawmot)
    } else if code == CardId::A2b072TeamRocketGrunt.spec_code() {
        Some(CardId::A2b072TeamRocketGrunt)
    } else if code == CardId::A2b091TeamRocketGrunt.spec_code() {
        Some(CardId::A2b091TeamRocketGrunt)
    } else if code == CardId::A3054Pyukumuku.spec_code() {
        Some(CardId::A3054Pyukumuku)
    } else if code == CardId::A3a052Ferrothorn.spec_code() {
        Some(CardId::A3a052Ferrothorn)
    } else if code == CardId::A3b016Vaporeon.spec_code() {
        Some(CardId::A3b016Vaporeon)
    } else if code == CardId::A3b069Penny.spec_code() {
        Some(CardId::A3b069Penny)
    } else if code == CardId::A4018Yanma.spec_code() {
        Some(CardId::A4018Yanma)
    } else if code == CardId::A4081Natu.spec_code() {
        Some(CardId::A4081Natu)
    } else if code == CardId::A4082Xatu.spec_code() {
        Some(CardId::A4082Xatu)
    } else if code == CardId::A4153SteelApron.spec_code() {
        Some(CardId::A4153SteelApron)
    } else if code == CardId::A4156Will.spec_code() {
        Some(CardId::A4156Will)
    } else if code == CardId::A4159Fisher.spec_code() {
        Some(CardId::A4159Fisher)
    } else if code == CardId::A4199Fisher.spec_code() {
        Some(CardId::A4199Fisher)
    } else if code == CardId::A4a003JumpluffEx.spec_code() {
        Some(CardId::A4a003JumpluffEx)
    } else if code == CardId::A4a065Zangoose.spec_code() {
        Some(CardId::A4a065Zangoose)
    } else if code == CardId::A4a067InflatableBoat.spec_code() {
        Some(CardId::A4a067InflatableBoat)
    } else if code == CardId::A4a068MemoryLight.spec_code() {
        Some(CardId::A4a068MemoryLight)
    } else if code == CardId::A4b320GiantCape.spec_code() {
        Some(CardId::A4b320GiantCape)
    } else if code == CardId::A4b321GiantCape.spec_code() {
        Some(CardId::A4b321GiantCape)
    } else if code == CardId::B1127Hariyama.spec_code() {
        Some(CardId::B1127Hariyama)
    } else if code == CardId::B1160DragalgeEx.spec_code() {
        Some(CardId::B1160DragalgeEx)
    } else if code == CardId::B1215HittingHammer.spec_code() {
        Some(CardId::B1215HittingHammer)
    } else if code == CardId::B1263DragalgeEx.spec_code() {
        Some(CardId::B1263DragalgeEx)
    } else if code == CardId::B1281DragalgeEx.spec_code() {
        Some(CardId::B1281DragalgeEx)
    } else if code == CardId::B1297Poliwrath.spec_code() {
        Some(CardId::B1297Poliwrath)
    } else if code == CardId::B2070Meloetta.spec_code() {
        Some(CardId::B2070Meloetta)
    } else if code == CardId::B2097AlolanMuk.spec_code() {
        Some(CardId::B2097AlolanMuk)
    } else if code == CardId::B2103Spiritomb.spec_code() {
        Some(CardId::B2103Spiritomb)
    } else if code == CardId::B2145LuckyIcePop.spec_code() {
        Some(CardId::B2145LuckyIcePop)
    } else if code == CardId::B2a086ElectricGenerator.spec_code() {
        Some(CardId::B2a086ElectricGenerator)
    } else if code == CardId::B2a087BigAirBalloon.spec_code() {
        Some(CardId::B2a087BigAirBalloon)
    } else if code == CardId::B2a091Arven.spec_code() {
        Some(CardId::B2a091Arven)
    } else if code == CardId::B2a093Mesagoza.spec_code() {
        Some(CardId::B2a093Mesagoza)
    } else if code == CardId::B2a108Arven.spec_code() {
        Some(CardId::B2a108Arven)
    } else if code == CardId::B2a115Arven.spec_code() {
        Some(CardId::B2a115Arven)
    } else if code == CardId::B2a131ElectricGenerator.spec_code() {
        Some(CardId::B2a131ElectricGenerator)
    } else if code == CardId::B3025Victini.spec_code() {
        Some(CardId::B3025Victini)
    } else if code == CardId::B3081MegaLucarioEx.spec_code() {
        Some(CardId::B3081MegaLucarioEx)
    } else if code == CardId::B3231DragalgeEx.spec_code() {
        Some(CardId::B3231DragalgeEx)
    } else if code == CardId::B3b001Caterpie.spec_code() {
        Some(CardId::B3b001Caterpie)
    } else if code == CardId::B3b041MegaSableyeEx.spec_code() {
        Some(CardId::B3b041MegaSableyeEx)
    } else if code == CardId::B3b064SmallBalloon.spec_code() {
        Some(CardId::B3b064SmallBalloon)
    } else if code == CardId::B4115Revavroom.spec_code() {
        Some(CardId::B4115Revavroom)
    } else if code == CardId::B4145OrderPad.spec_code() {
        Some(CardId::B4145OrderPad)
    } else if code == CardId::B4149ClearVeil.spec_code() {
        Some(CardId::B4149ClearVeil)
    } else if code == CardId::B4a018HisuianBasculegion.spec_code() {
        Some(CardId::B4a018HisuianBasculegion)
    } else if code == CardId::B4a021TeamRocketsZapdosEx.spec_code() {
        Some(CardId::B4a021TeamRocketsZapdosEx)
    } else if code == CardId::B4a051Gholdengo.spec_code() {
        Some(CardId::B4a051Gholdengo)
    } else if code == CardId::B4a069TeamRocketsResearcher.spec_code() {
        Some(CardId::B4a069TeamRocketsResearcher)
    } else if code == CardId::B4a070TeamRocketsMasterPlan.spec_code() {
        Some(CardId::B4a070TeamRocketsMasterPlan)
    } else if code == CardId::B4a072Arcade.spec_code() {
        Some(CardId::B4a072Arcade)
    } else if code == CardId::B4a085TeamRocketsResearcher.spec_code() {
        Some(CardId::B4a085TeamRocketsResearcher)
    } else if code == CardId::B4a086TeamRocketsMasterPlan.spec_code() {
        Some(CardId::B4a086TeamRocketsMasterPlan)
    } else if code == CardId::B4a094TeamRocketsMasterPlan.spec_code() {
        Some(CardId::B4a094TeamRocketsMasterPlan)
    } else if code == CardId::B4a109Gholdengo.spec_code() {
        Some(CardId::B4a109Gholdengo)
    } else if code == CardId::PA001Potion.spec_code() {
        Some(CardId::PA001Potion)
    } else if code == CardId::PA002XSpeed.spec_code() {
        Some(CardId::PA002XSpeed)
    } else if code == CardId::PA005PokeBall.spec_code() {
        Some(CardId::PA005PokeBall)
    } else if code == CardId::PA006RedCard.spec_code() {
        Some(CardId::PA006RedCard)
    } else if code == CardId::PA007ProfessorsResearch.spec_code() {
        Some(CardId::PA007ProfessorsResearch)
    } else if code == CardId::PA017Mankey.spec_code() {
        Some(CardId::PA017Mankey)
    } else if code == CardId::PA054Pawmot.spec_code() {
        Some(CardId::PA054Pawmot)
    } else if code == CardId::PB024MegaLatiosEx.spec_code() {
        Some(CardId::PB024MegaLatiosEx)
    } else if code == CardId::PB049Victini.spec_code() {
        Some(CardId::PB049Victini)
    } else if code == CardId::PB088TeamRocketsScyther.spec_code() {
        Some(CardId::PB088TeamRocketsScyther)
    } else {
        None
    }
}

impl CardId {
    /// `CardId` for a printed id code; `None` for a code no rule refers to.
    pub fn from_card_id(code: &str) -> (r: Option<CardId>)
        ensures
            r == spec_card_id_from_code(code@),
    {
        if str_equal(code, CardId::A1001Bulbasaur.code()) {
            Some(CardId::A1001Bulbasaur)
        } else if str_equal(code, CardId::A1002Ivysaur.code()) {
            Some(CardId::A1002Ivysaur)
        } else if str_equal(code, CardId::A1003Venusaur.code()) {
            Some(CardId::A1003Venusaur)
        } else if str_equal(code, CardId::A1004VenusaurEx.code()) {
            Some(CardId::A1004VenusaurEx)
        } else if str_equal(code, CardId::A1005Caterpie.code()) {
            Some(CardId::A1005Caterpie)
        } else if str_equal(code, CardId::A1008Weedle.code()) {
            Some(CardId::A1008Weedle)
        } else if str_equal(code, CardId::A1021Exeggcute.code()) {
            Some(CardId::A1021Exeggcute)
        } else if str_equal(code, CardId::A1023ExeggutorEx.code()) {
            Some(CardId::A1023ExeggutorEx)
        } else if str_equal(code, CardId::A1033Charmander.code()) {
            Some(CardId::A1033Charmander)
        } else if str_equal(code, CardId::A1053Squirtle.code()) {
            Some(CardId::A1053Squirtle)
        } else if str_equal(code, CardId::A1055Blastoise.code()) {
            Some(CardId::A1055Blastoise)
        } else if str_equal(code, CardId::A1056BlastoiseEx.code()) {
            Some(CardId::A1056BlastoiseEx)
        } else if str_equal(code, CardId::A1057Psyduck.code()) {
            Some(CardId::A1057Psyduck)
        } else if str_equal(code, CardId::A1061Poliwrath.code()) {
            Some(CardId::A1061Poliwrath)
        } else if str_equal(code, CardId::A1076StarmieEx.code()) {
            Some(CardId::A1076StarmieEx)
        } else if str_equal(code, CardId::A1094Pikachu.code()) {
            Some(CardId::A1094Pikachu)
        } else if str_equal(code, CardId::A1128Mewtwo.code()) {
            Some(CardId::A1128Mewtwo)
        } else if str_equal(code, CardId::A1141Mankey.code()) {
            Some(CardId::A1141Mankey)
        } else if str_equal(code, CardId::A1142Primeape.code()) {
            Some(CardId::A1142Primeape)
        } else if str_equal(code, CardId::A1143Machop.code()) {
            Some(CardId::A1143Machop)
        } else if str_equal(code, CardId::A1163Grapploct.code()) {
            Some(CardId::A1163Grapploct)
        } else if str_equal(code, CardId::A1176Koffing.code()) {
            Some(CardId::A1176Koffing)
        } else if str_equal(code, CardId::A1198Farfetchd.code()) {
            Some(CardId::A1198Farfetchd)
        } else if str_equal(code, CardId::A1211Snorlax.code()) {
            Some(CardId::A1211Snorlax)
        } else if str_equal(code, CardId::A1219Erika.code()) {
            Some(CardId::A1219Erika)
        } else if str_equal(code, CardId::A1220Misty.code()) {
            Some(CardId::A1220Misty)
        } else if str_equal(code, CardId::A1267Misty.code()) {
            Some(CardId::A1267Misty)
        } else if str_equal(code, CardId::A1a017Magikarp.code()) {
            Some(CardId::A1a017Magikarp)
        } else if str_equal(code, CardId::A1a056Druddigon.code()) {
            Some(CardId::A1a056Druddigon)
        } else if str_equal(code, CardId::A2147GiantCape.code()) {
            Some(CardId::A2147GiantCape)
        } else if str_equal(code, CardId::A2a071ArceusEx.code()) {
            Some(CardId::A2a071ArceusEx)
        } else if str_equal(code, CardId::A2b028Pawmot.code()) {
            Some(CardId::A2b028Pawmot)
        } else if str_equal(code, CardId::A2b072TeamRocketGrunt.code()) {
            Some(CardId::A2b072TeamRocketGrunt)
        } else if str_equal(code, CardId::A2b091TeamRocketGrunt.code()) {
            Some(CardId::A2b091TeamRocketGrunt)
        } else if str_equal(code, CardId::A3054Pyukumuku.code()) {
            Some(CardId::A3054Pyukumuku)
        } else if str_equal(code, CardId::A3a052Ferrothorn.code()) {
            Some(CardId::A3a052Ferrothorn)
        } else if str_equal(code, CardId::A3b016Vaporeon.code()) {
            Some(CardId::A3b016Vaporeon)
        } else if str_equal(code, CardId::A3b069Penny.code()) {
            Some(CardId::A3b069Penny)
        } else if str_equal(code, CardId::A4018Yanma.code()) {
            Some(CardId::A4018Yanma)
        } else if str_equal(code, CardId::A4081Natu.code()) {
            Some(CardId::A4081Natu)
        } else if str_equal(code, CardId::A4082Xatu.code()) {
            Some(CardId::A4082Xatu)
        } else if str_equal(code, CardId::A4153SteelApron.code()) {
            Some(CardId::A4153SteelApron)
        } else if str_equal(code, CardId::A4156Will.code()) {
            Some(CardId::A4156Will)
        } else if str_equal(code, CardId::A4159Fisher.code()) {
            Some(CardId::A4159Fisher)
        } else if str_equal(code, CardId::A4199Fisher.code()) {
            Some(CardId::A4199Fisher)
        } else if str_equal(code, CardId::A4a003JumpluffEx.code()) {
            Some(CardId::A4a003JumpluffEx)
        } else if str_equal(code, CardId::A4a065Zangoose.code()) {
            Some(CardId::A4a065Zangoose)
        } else if str_equal(code, CardId::A4a067InflatableBoat.code()) {
            Some(CardId::A4a067InflatableBoat)
        } else if str_equal(code, CardId::A4a068MemoryLight.code()) {
            Some(CardId::A4a068MemoryLight)
        } else if str_equal(code, CardId::A4b320GiantCape.code()) {
            Some(CardId::A4b320GiantCape)
        } else if str_equal(code, CardId::A4b321GiantCape.code()) {
            Some(CardId::A4b321GiantCape)
        } else if str_equal(code, CardId::B1127Hariyama.code()) {
            Some(CardId::B1127Hariyama)
        } else if str_equal(code, CardId::B1160DragalgeEx.code()) {
            Some(CardId::B1160DragalgeEx)
        } else if str_equal(code, CardId::B1215HittingHammer.code()) {
            Some(CardId::B1215HittingHammer)
        } else if str_equal(code, CardId::B1263DragalgeEx.code()) {
            Some(CardId::B1263DragalgeEx)
        } else if str_equal(code, CardId::B1281DragalgeEx.code()) {
            Some(CardId::B1281DragalgeEx)
        } else if str_equal(code, CardId::B1297Poliwrath.code()) {
            Some(CardId::B1297Poliwrath)
        } else if str_equal(code, CardId::B2070Meloetta.code()) {
            Some(CardId::B2070Meloetta)
        } else if str_equal(code, CardId::B2097AlolanMuk.code()) {
            Some(CardId::B2097AlolanMuk)
        } else if str_equal(code, CardId::B2103Spiritomb.code()) {
            Some(CardId::B2103Spiritomb)
        } else if str_equal(code, CardId::B2145LuckyIcePop.code()) {
            Some(CardId::B2145LuckyIcePop)
        } else if str_equal(code, CardId::B2a086ElectricGenerator.code()) {
            Some(CardId::B2a086ElectricGenerator)
        } else if str_equal(code, CardId::B2a087BigAirBalloon.code()) {
            Some(CardId::B2a087BigAirBalloon)
        } else if str_equal(code, CardId::B2a091Arven.code()) {
            Some(CardId::B2a091Arven)
        } else if str_equal(code, CardId::B2a093Mesagoza.code()) {
            Some(CardId::B2a093Mesagoza)
        } else if str_equal(code, CardId::B2a108Arven.code()) {
            Some(CardId::B2a108Arven)
        } else if str_equal(code, CardId::B2a115Arven.code()) {
            Some(CardId::B2a115Arven)
        } else if str_equal(code, CardId::B2a131ElectricGenerator.code()) {
            Some(CardId::B2a131ElectricGenerator)
        } else if str_equal(code, CardId::B3025Victini.code()) {
            Some(CardId::B3025Victini)
        } else if str_equal(code, CardId::B3081MegaLucarioEx.code()) {
            Some(CardId::B3081MegaLucarioEx)
        } else if str_equal(code, CardId::B3231DragalgeEx.code()) {
            Some(CardId::B3231DragalgeEx)
        } else if str_equal(code, CardId::B3b001Caterpie.code()) {
            Some(CardId::B3b001Caterpie)
        } else if str_equal(code, CardId::B3b041MegaSableyeEx.code()) {
            Some(CardId::B3b041MegaSableyeEx)
        } else if str_equal(code, CardId::B3b064SmallBalloon.code()) {
            Some(CardId::B3b064SmallBalloon)
        } else if str_equal(code, CardId::B4115Revavroom.code()) {
            Some(CardId::B4115Revavroom)
        } else if str_equal(code, CardId::B4145OrderPad.code()) {
            Some(CardId::B4145OrderPad)
        } else if str_equal(code, CardId::B4149ClearVeil.code()) {
            Some(CardId::B4149ClearVeil)
        } else if str_equal(code, CardId::B4a018HisuianBasculegion.code()) {
            Some(CardId::B4a018HisuianBasculegion)
        } else if str_equal(code, CardId::B4a021TeamRocketsZapdosEx.code()) {
            Some(CardId::B4a021TeamRocketsZapdosEx)
        } else if str_equal(code, CardId::B4a051Gholdengo.code()) {
            Some(CardId::B4a051Gholdengo)
        } else if str_equal(code, CardId::B4a069TeamRocketsResearcher.code()) {
            Some(CardId::B4a069TeamRocketsResearcher)
        } else if str_equal(code, CardId::B4a070TeamRocketsMasterPlan.code()) {
            Some(CardId::B4a070TeamRocketsMasterPlan)
        } else if str_equal(code, CardId::B4a072Arcade.code()) {
            Some(CardId::B4a072Arcade)
        } else if str_equal(code, CardId::B4a085TeamRocketsResearcher.code()) {
            Some(CardId::B4a085TeamRocketsResearcher)
        } else if str_equal(code, CardId::B4a086TeamRocketsMasterPlan.code()) {
            Some(CardId::B4a086TeamRocketsMasterPlan)
        } else if str_equal(code, CardId::B4a094TeamRocketsMasterPlan.code()) {
            Some(CardId::B4a094TeamRocketsMasterPlan)
        } else if str_equal(code, CardId::B4a109Gholdengo.code()) {
            Some(CardId::B4a109Gholdengo)
        } else if str_equal(code, CardId::PA001Potion.code()) {
            Some(CardId::PA001Potion)
        } else if str_equal(code, CardId::PA002XSpeed.code()) {
            Some(CardId::PA002XSpeed)
        } else if str_equal(code, CardId::PA005PokeBall.code()) {
            Some(CardId::PA005PokeBall)
        } else if str_equal(code, CardId::PA006RedCard.code()) {
            Some(CardId::PA006RedCard)
        } else if str_equal(code, CardId::PA007ProfessorsResearch.code()) {
            Some(CardId::PA007ProfessorsResearch)
        } else if str_equal(code, CardId::PA017Mankey.code()) {
            Some(CardId::PA017Mankey)
        } else if str_equal(code, CardId::PA054Pawmot.code()) {
            Some(CardId::PA054Pawmot)
        } else if str_equal(code, CardId::PB024MegaLatiosEx.code()) {
            Some(CardId::PB024MegaLatiosEx)
        } else if str_equal(code, CardId::PB049Victini.code()) {
            Some(CardId::PB049Victini)
        } else if str_equal(code, CardId::PB088TeamRocketsScyther.code()) {
            Some(CardId::PB088TeamRocketsScyther)
        } else {
            None
        }
    }
}

} // verus!
