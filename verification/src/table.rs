//! The production halving schedule, fixed at build time.
//!
//! Subsidy amounts are stored in sompi (10^-8 of a coin), so each entry
//! of the published table is held exactly.  The order of the table is
//! established statically: every push carries the proof that the
//! thresholds stay strictly ascending.

use vstd::prelude::*;
use crate::schedule::{Breakpoint, Schedule, strictly_ascending};

verus! {

/// Shorthand for a table entry.
pub open spec fn bp(t: u64, s: u64) -> Breakpoint {
    Breakpoint { daa_threshold: t, subsidy_sompi: s }
}

/// Rows 0 through 32 of the production table.
pub open spec fn table_chunk_0() -> Seq<Breakpoint> {
    seq![
        bp(15519600, 50000000000),
        bp(18149400, 44000000000),
        bp(20779200, 41530469757),
        bp(23409000, 39199543598),
        bp(26038800, 36999442271),
        bp(28668600, 34922823143),
        bp(31298400, 32962755691),
        bp(33928200, 31112698372),
        bp(36558000, 29366476791),
        bp(39187800, 27718263097),
        bp(41817600, 26162556530),
        bp(44447400, 24694165062),
        bp(47077200, 23308188075),
        bp(49707000, 22000000000),
        bp(52336800, 20765234878),
        bp(54966600, 19599771799),
        bp(57596400, 18499721135),
        bp(60226200, 17461411571),
        bp(62856000, 16481377845),
        bp(65485800, 15556349186),
        bp(68115600, 14683238395),
        bp(70745400, 13859131548),
        bp(73375200, 13081278265),
        bp(76005000, 12347082531),
        bp(78634800, 11654094037),
        bp(81264600, 11000000000),
        bp(83894400, 10382617439),
        bp(86524200, 9799885899),
        bp(89154000, 9249860567),
        bp(91783800, 8730705785),
        bp(94413600, 8240688922),
        bp(97043400, 7778174593),
        bp(99673200, 7341619197),
    ]
}

/// Rows 33 through 65 of the production table.
pub open spec fn table_chunk_1() -> Seq<Breakpoint> {
    seq![
        bp(102303000, 6929565774),
        bp(104932800, 6540639132),
        bp(107562600, 6173541265),
        bp(110192400, 5827047018),
        bp(112822200, 5500000000),
        bp(115452000, 5191308719),
        bp(118081800, 4899942949),
        bp(120711600, 4624930283),
        bp(123341400, 4365352892),
        bp(125971200, 4120344461),
        bp(128601000, 3889087296),
        bp(131230800, 3670809598),
        bp(133860600, 3464782887),
        bp(136490400, 3270319566),
        bp(139120200, 3086770632),
        bp(141750000, 2913523509),
        bp(144379800, 2750000000),
        bp(147009600, 2595654359),
        bp(149639400, 2449971474),
        bp(152269200, 2312465141),
        bp(154899000, 2182676446),
        bp(157528800, 2060172230),
        bp(160158600, 1944543648),
        bp(162788400, 1835404799),
        bp(165418200, 1732391443),
        bp(168048000, 1635159783),
        bp(170677800, 1543385316),
        bp(173307600, 1456761754),
        bp(175937400, 1375000000),
        bp(178567200, 1297827179),
        bp(181197000, 1224985737),
        bp(183826800, 1156232570),
        bp(186456600, 1091338223),
    ]
}

/// Rows 66 through 98 of the production table.
pub open spec fn table_chunk_2() -> Seq<Breakpoint> {
    seq![
        bp(189086400, 1030086115),
        bp(191716200, 972271824),
        bp(194346000, 917702399),
        bp(196975800, 866195721),
        bp(199605600, 817579891),
        bp(202235400, 771692658),
        bp(204865200, 728380877),
        bp(207495000, 687500000),
        bp(210124800, 648913589),
        bp(212754600, 612492868),
        bp(215384400, 578116285),
        bp(218014200, 545669111),
        bp(220644000, 515043057),
        bp(223273800, 486135912),
        bp(225903600, 458851199),
        bp(228533400, 433097860),
        bp(231163200, 408789945),
        bp(233793000, 385846329),
        bp(236422800, 364190438),
        bp(239052600, 343750000),
        bp(241682400, 324456794),
        bp(244312200, 306246434),
        bp(246942000, 289058142),
        bp(249571800, 272834555),
        bp(252201600, 257521528),
        bp(254831400, 243067956),
        bp(257461200, 229425599),
        bp(260091000, 216548930),
        bp(262720800, 204394972),
        bp(265350600, 192923164),
        bp(267980400, 182095219),
        bp(270610200, 171875000),
        bp(273240000, 162228397),
    ]
}

/// Rows 99 through 131 of the production table.
pub open spec fn table_chunk_3() -> Seq<Breakpoint> {
    seq![
        bp(275869800, 153123217),
        bp(278499600, 144529071),
        bp(281129400, 136417277),
        bp(283759200, 128760764),
        bp(286389000, 121533978),
        bp(289018800, 114712799),
        bp(291648600, 108274465),
        bp(294278400, 102197486),
        bp(296908200, 96461582),
        bp(299538000, 91047609),
        bp(302167800, 85937500),
        bp(304797600, 81114198),
        bp(307427400, 76561608),
        bp(310057200, 72264535),
        bp(312687000, 68208638),
        bp(315316800, 64380382),
        bp(317946600, 60766989),
        bp(320576400, 57356399),
        bp(323206200, 54137232),
        bp(325836000, 51098743),
        bp(328465800, 48230791),
        bp(331095600, 45523804),
        bp(333725400, 42968750),
        bp(336355200, 40557099),
        bp(338985000, 38280804),
        bp(341614800, 36132267),
        bp(344244600, 34104319),
        bp(346874400, 32190191),
        bp(349504200, 30383494),
        bp(352134000, 28678199),
        bp(354763800, 27068616),
        bp(357393600, 25549371),
        bp(360023400, 24115395),
    ]
}

/// Rows 132 through 164 of the production table.
pub open spec fn table_chunk_4() -> Seq<Breakpoint> {
    seq![
        bp(362653200, 22762313),
        bp(365283000, 21476591),
        bp(367912800, 20265196),
        bp(370542600, 19123776),
        bp(373172400, 18049956),
        bp(375802200, 17043676),
        bp(378432000, 16103470),
        bp(381061800, 15229382),
        bp(383691600, 14422656),
        bp(386321400, 13678283),
        bp(388951200, 12994654),
        bp(391581000, 12370799),
        bp(394210800, 11804224),
        bp(396840600, 11296396),
        bp(399470400, 10847332),
        bp(402100200, 10458033),
        bp(404730000, 10131789),
        bp(407359800, 9862433),
        bp(409989600, 9657248),
        bp(412619400, 9508814),
        bp(415249200, 9417745),
        bp(417879000, 9383286),
        bp(420508800, 9409615),
        bp(423138600, 9493826),
        bp(425768400, 9631169),
        bp(428398200, 9815882),
        bp(431028000, 10041220),
        bp(433657800, 10305375),
        bp(436287600, 10602993),
        bp(438917400, 10933378),
        bp(441547200, 11302845),
        bp(444177000, 11707016),
        bp(446806800, 12144084),
    ]
}

/// Rows 165 through 197 of the production table.
pub open spec fn table_chunk_5() -> Seq<Breakpoint> {
    seq![
        bp(449436600, 12613759),
        bp(452066400, 13112062),
        bp(454696200, 13643943),
        bp(457326000, 14209691),
        bp(459955800, 14808620),
        bp(462585600, 15443784),
        bp(465215400, 16114343),
        bp(467845200, 16818979),
        bp(470475000, 17564051),
        bp(473104800, 18346341),
        bp(475734600, 19172660),
        bp(478364400, 20051084),
        bp(480994200, 20983509),
        bp(483624000, 21971124),
        bp(486253800, 23014380),
        bp(488883600, 24113258),
        bp(491513400, 25268619),
        bp(494143200, 26479714),
        bp(496773000, 27746917),
        bp(499402800, 29071021),
        bp(502032600, 30452164),
        bp(504662400, 31889863),
        bp(507292200, 33384339),
        bp(509922000, 34935715),
        bp(512551800, 36544036),
        bp(515181600, 38209539),
        bp(517811400, 39932595),
        bp(520441200, 41712519),
        bp(523071000, 43550739),
        bp(525700800, 45447742),
        bp(528330600, 47402891),
        bp(530960400, 49415404),
        bp(533590200, 51483542),
    ]
}

/// Rows 198 through 230 of the production table.
pub open spec fn table_chunk_6() -> Seq<Breakpoint> {
    seq![
        bp(536220000, 53607358),
        bp(538849800, 55784920),
        bp(541479600, 58013131),
        bp(544109400, 60290554),
        bp(546739200, 62616163),
        bp(549369000, 64988689),
        bp(552998800, 67406554),
        bp(555628600, 69868107),
        bp(558258400, 72370715),
        bp(560888200, 74914643),
        bp(563518000, 77504293),
        bp(566147800, 80140805),
        bp(568777600, 82824862),
        bp(571407400, 85558615),
        bp(574037200, 88342548),
        bp(576667000, 91176738),
        bp(579296800, 94061089),
        bp(581926600, 96995827),
        bp(584556400, 99981739),
        bp(587186200, 103018801),
        bp(589816000, 106108733),
        bp(592445800, 109250556),
        bp(595075600, 112446462),
        bp(597705400, 115704183),
        bp(600335200, 119029283),
        bp(602965000, 122431324),
        bp(605594800, 125908533),
        bp(608224600, 129464635),
        bp(610854400, 133104201),
        bp(613484200, 136830438),
        bp(616114000, 140644768),
        bp(618743800, 144545977),
        bp(621373600, 148542605),
    ]
}

/// Rows 231 through 263 of the production table.
pub open spec fn table_chunk_7() -> Seq<Breakpoint> {
    seq![
        bp(624003400, 152629285),
        bp(626633200, 156805948),
        bp(629263000, 161073863),
        bp(631892800, 165433896),
        bp(634522600, 169885337),
        bp(637152400, 174430241),
        bp(639782200, 179068070),
        bp(642412000, 183802013),
        bp(645041800, 188630739),
        bp(647671600, 193554642),
        bp(650301400, 198574777),
        bp(652931200, 203690322),
        bp(655561000, 208902358),
        bp(658190800, 214211662),
        bp(660820600, 219606986),
        bp(663450400, 225097958),
        bp(666080200, 230696614),
        bp(668710000, 236403037),
        bp(671339800, 242221310),
        bp(673969600, 248157869),
        bp(676599400, 254203909),
        bp(679229200, 260360241),
        bp(681859000, 266619334),
        bp(684488800, 272984534),
        bp(687118600, 279456452),
        bp(689748400, 286038066),
        bp(692378200, 292734309),
        bp(695008000, 299543411),
        bp(697637800, 306465069),
        bp(700267600, 313497407),
        bp(702897400, 320641090),
        bp(705527200, 327896566),
        bp(708157000, 335261108),
    ]
}

/// The full production table, ascending in the threshold.
pub open spec fn production_table() -> Seq<Breakpoint> {
    table_chunk_0() + table_chunk_1() + table_chunk_2() + table_chunk_3() + table_chunk_4() + table_chunk_5() + table_chunk_6() + table_chunk_7()
}

/// Appends one entry whose threshold lies above everything pushed so
/// far, keeping the table strictly ascending.
fn push_entry(v: &mut Vec<Breakpoint>, t: u64, s: u64)
    requires
        strictly_ascending(old(v)@),
        old(v)@.len() > 0 ==> old(v)@.last().daa_threshold < t,
    ensures
        final(v)@ == old(v)@.push(Breakpoint { daa_threshold: t, subsidy_sompi: s }),
        strictly_ascending(final(v)@),
        final(v)@.len() == old(v)@.len() + 1,
        final(v)@.last().daa_threshold == t,
{
    v.push(Breakpoint { daa_threshold: t, subsidy_sompi: s });
    proof {
        assert forall|i: int, j: int| 0 <= i < j < v@.len() implies v@[i].daa_threshold
            < v@[j].daa_threshold by {
            if j < v@.len() - 1 {
            } else if i < v@.len() - 2 {
                assert(old(v)@[i].daa_threshold < old(v)@[old(v)@.len() - 1].daa_threshold);
            }
        }
    }
}

/// Appends the rows of `table_chunk_0`.
fn push_chunk_0(v: &mut Vec<Breakpoint>)
    requires
        strictly_ascending(old(v)@),
        old(v)@.len() > 0 ==> old(v)@.last().daa_threshold < 15519600,
    ensures
        final(v)@ == old(v)@ + table_chunk_0(),
        strictly_ascending(final(v)@),
        final(v)@.len() == old(v)@.len() + 33,
        final(v)@.last().daa_threshold == 99673200,
{
    push_entry(v, 15519600, 50000000000);
    push_entry(v, 18149400, 44000000000);
    push_entry(v, 20779200, 41530469757);
    push_entry(v, 23409000, 39199543598);
    push_entry(v, 26038800, 36999442271);
    push_entry(v, 28668600, 34922823143);
    push_entry(v, 31298400, 32962755691);
    push_entry(v, 33928200, 31112698372);
    push_entry(v, 36558000, 29366476791);
    push_entry(v, 39187800, 27718263097);
    push_entry(v, 41817600, 26162556530);
    push_entry(v, 44447400, 24694165062);
    push_entry(v, 47077200, 23308188075);
    push_entry(v, 49707000, 22000000000);
    push_entry(v, 52336800, 20765234878);
    push_entry(v, 54966600, 19599771799);
    push_entry(v, 57596400, 18499721135);
    push_entry(v, 60226200, 17461411571);
    push_entry(v, 62856000, 16481377845);
    push_entry(v, 65485800, 15556349186);
    push_entry(v, 68115600, 14683238395);
    push_entry(v, 70745400, 13859131548);
    push_entry(v, 73375200, 13081278265);
    push_entry(v, 76005000, 12347082531);
    push_entry(v, 78634800, 11654094037);
    push_entry(v, 81264600, 11000000000);
    push_entry(v, 83894400, 10382617439);
    push_entry(v, 86524200, 9799885899);
    push_entry(v, 89154000, 9249860567);
    push_entry(v, 91783800, 8730705785);
    push_entry(v, 94413600, 8240688922);
    push_entry(v, 97043400, 7778174593);
    push_entry(v, 99673200, 7341619197);
    proof {
        assert(v@ =~= old(v)@ + table_chunk_0());
    }
}

/// Appends the rows of `table_chunk_1`.
fn push_chunk_1(v: &mut Vec<Breakpoint>)
    requires
        strictly_ascending(old(v)@),
        old(v)@.len() > 0 ==> old(v)@.last().daa_threshold < 102303000,
    ensures
        final(v)@ == old(v)@ + table_chunk_1(),
        strictly_ascending(final(v)@),
        final(v)@.len() == old(v)@.len() + 33,
        final(v)@.last().daa_threshold == 186456600,
{
    push_entry(v, 102303000, 6929565774);
    push_entry(v, 104932800, 6540639132);
    push_entry(v, 107562600, 6173541265);
    push_entry(v, 110192400, 5827047018);
    push_entry(v, 112822200, 5500000000);
    push_entry(v, 115452000, 5191308719);
    push_entry(v, 118081800, 4899942949);
    push_entry(v, 120711600, 4624930283);
    push_entry(v, 123341400, 4365352892);
    push_entry(v, 125971200, 4120344461);
    push_entry(v, 128601000, 3889087296);
    push_entry(v, 131230800, 3670809598);
    push_entry(v, 133860600, 3464782887);
    push_entry(v, 136490400, 3270319566);
    push_entry(v, 139120200, 3086770632);
    push_entry(v, 141750000, 2913523509);
    push_entry(v, 144379800, 2750000000);
    push_entry(v, 147009600, 2595654359);
    push_entry(v, 149639400, 2449971474);
    push_entry(v, 152269200, 2312465141);
    push_entry(v, 154899000, 2182676446);
    push_entry(v, 157528800, 2060172230);
    push_entry(v, 160158600, 1944543648);
    push_entry(v, 162788400, 1835404799);
    push_entry(v, 165418200, 1732391443);
    push_entry(v, 168048000, 1635159783);
    push_entry(v, 170677800, 1543385316);
    push_entry(v, 173307600, 1456761754);
    push_entry(v, 175937400, 1375000000);
    push_entry(v, 178567200, 1297827179);
    push_entry(v, 181197000, 1224985737);
    push_entry(v, 183826800, 1156232570);
    push_entry(v, 186456600, 1091338223);
    proof {
        assert(v@ =~= old(v)@ + table_chunk_1());
    }
}

/// Appends the rows of `table_chunk_2`.
fn push_chunk_2(v: &mut Vec<Breakpoint>)
    requires
        strictly_ascending(old(v)@),
        old(v)@.len() > 0 ==> old(v)@.last().daa_threshold < 189086400,
    ensures
        final(v)@ == old(v)@ + table_chunk_2(),
        strictly_ascending(final(v)@),
        final(v)@.len() == old(v)@.len() + 33,
        final(v)@.last().daa_threshold == 273240000,
{
    push_entry(v, 189086400, 1030086115);
    push_entry(v, 191716200, 972271824);
    push_entry(v, 194346000, 917702399);
    push_entry(v, 196975800, 866195721);
    push_entry(v, 199605600, 817579891);
    push_entry(v, 202235400, 771692658);
    push_entry(v, 204865200, 728380877);
    push_entry(v, 207495000, 687500000);
    push_entry(v, 210124800, 648913589);
    push_entry(v, 212754600, 612492868);
    push_entry(v, 215384400, 578116285);
    push_entry(v, 218014200, 545669111);
    push_entry(v, 220644000, 515043057);
    push_entry(v, 223273800, 486135912);
    push_entry(v, 225903600, 458851199);
    push_entry(v, 228533400, 433097860);
    push_entry(v, 231163200, 408789945);
    push_entry(v, 233793000, 385846329);
    push_entry(v, 236422800, 364190438);
    push_entry(v, 239052600, 343750000);
    push_entry(v, 241682400, 324456794);
    push_entry(v, 244312200, 306246434);
    push_entry(v, 246942000, 289058142);
    push_entry(v, 249571800, 272834555);
    push_entry(v, 252201600, 257521528);
    push_entry(v, 254831400, 243067956);
    push_entry(v, 257461200, 229425599);
    push_entry(v, 260091000, 216548930);
    push_entry(v, 262720800, 204394972);
    push_entry(v, 265350600, 192923164);
    push_entry(v, 267980400, 182095219);
    push_entry(v, 270610200, 171875000);
    push_entry(v, 273240000, 162228397);
    proof {
        assert(v@ =~= old(v)@ + table_chunk_2());
    }
}

/// Appends the rows of `table_chunk_3`.
fn push_chunk_3(v: &mut Vec<Breakpoint>)
    requires
        strictly_ascending(old(v)@),
        old(v)@.len() > 0 ==> old(v)@.last().daa_threshold < 275869800,
    ensures
        final(v)@ == old(v)@ + table_chunk_3(),
        strictly_ascending(final(v)@),
        final(v)@.len() == old(v)@.len() + 33,
        final(v)@.last().daa_threshold == 360023400,
{
    push_entry(v, 275869800, 153123217);
    push_entry(v, 278499600, 144529071);
    push_entry(v, 281129400, 136417277);
    push_entry(v, 283759200, 128760764);
    push_entry(v, 286389000, 121533978);
    push_entry(v, 289018800, 114712799);
    push_entry(v, 291648600, 108274465);
    push_entry(v, 294278400, 102197486);
    push_entry(v, 296908200, 96461582);
    push_entry(v, 299538000, 91047609);
    push_entry(v, 302167800, 85937500);
    push_entry(v, 304797600, 81114198);
    push_entry(v, 307427400, 76561608);
    push_entry(v, 310057200, 72264535);
    push_entry(v, 312687000, 68208638);
    push_entry(v, 315316800, 64380382);
    push_entry(v, 317946600, 60766989);
    push_entry(v, 320576400, 57356399);
    push_entry(v, 323206200, 54137232);
    push_entry(v, 325836000, 51098743);
    push_entry(v, 328465800, 48230791);
    push_entry(v, 331095600, 45523804);
    push_entry(v, 333725400, 42968750);
    push_entry(v, 336355200, 40557099);
    push_entry(v, 338985000, 38280804);
    push_entry(v, 341614800, 36132267);
    push_entry(v, 344244600, 34104319);
    push_entry(v, 346874400, 32190191);
    push_entry(v, 349504200, 30383494);
    push_entry(v, 352134000, 28678199);
    push_entry(v, 354763800, 27068616);
    push_entry(v, 357393600, 25549371);
    push_entry(v, 360023400, 24115395);
    proof {
        assert(v@ =~= old(v)@ + table_chunk_3());
    }
}

/// Appends the rows of `table_chunk_4`.
fn push_chunk_4(v: &mut Vec<Breakpoint>)
    requires
        strictly_ascending(old(v)@),
        old(v)@.len() > 0 ==> old(v)@.last().daa_threshold < 362653200,
    ensures
        final(v)@ == old(v)@ + table_chunk_4(),
        strictly_ascending(final(v)@),
        final(v)@.len() == old(v)@.len() + 33,
        final(v)@.last().daa_threshold == 446806800,
{
    push_entry(v, 362653200, 22762313);
    push_entry(v, 365283000, 21476591);
    push_entry(v, 367912800, 20265196);
    push_entry(v, 370542600, 19123776);
    push_entry(v, 373172400, 18049956);
    push_entry(v, 375802200, 17043676);
    push_entry(v, 378432000, 16103470);
    push_entry(v, 381061800, 15229382);
    push_entry(v, 383691600, 14422656);
    push_entry(v, 386321400, 13678283);
    push_entry(v, 388951200, 12994654);
    push_entry(v, 391581000, 12370799);
    push_entry(v, 394210800, 11804224);
    push_entry(v, 396840600, 11296396);
    push_entry(v, 399470400, 10847332);
    push_entry(v, 402100200, 10458033);
    push_entry(v, 404730000, 10131789);
    push_entry(v, 407359800, 9862433);
    push_entry(v, 409989600, 9657248);
    push_entry(v, 412619400, 9508814);
    push_entry(v, 415249200, 9417745);
    push_entry(v, 417879000, 9383286);
    push_entry(v, 420508800, 9409615);
    push_entry(v, 423138600, 9493826);
    push_entry(v, 425768400, 9631169);
    push_entry(v, 428398200, 9815882);
    push_entry(v, 431028000, 10041220);
    push_entry(v, 433657800, 10305375);
    push_entry(v, 436287600, 10602993);
    push_entry(v, 438917400, 10933378);
    push_entry(v, 441547200, 11302845);
    push_entry(v, 444177000, 11707016);
    push_entry(v, 446806800, 12144084);
    proof {
        assert(v@ =~= old(v)@ + table_chunk_4());
    }
}

/// Appends the rows of `table_chunk_5`.
fn push_chunk_5(v: &mut Vec<Breakpoint>)
    requires
        strictly_ascending(old(v)@),
        old(v)@.len() > 0 ==> old(v)@.last().daa_threshold < 449436600,
    ensures
        final(v)@ == old(v)@ + table_chunk_5(),
        strictly_ascending(final(v)@),
        final(v)@.len() == old(v)@.len() + 33,
        final(v)@.last().daa_threshold == 533590200,
{
    push_entry(v, 449436600, 12613759);
    push_entry(v, 452066400, 13112062);
    push_entry(v, 454696200, 13643943);
    push_entry(v, 457326000, 14209691);
    push_entry(v, 459955800, 14808620);
    push_entry(v, 462585600, 15443784);
    push_entry(v, 465215400, 16114343);
    push_entry(v, 467845200, 16818979);
    push_entry(v, 470475000, 17564051);
    push_entry(v, 473104800, 18346341);
    push_entry(v, 475734600, 19172660);
    push_entry(v, 478364400, 20051084);
    push_entry(v, 480994200, 20983509);
    push_entry(v, 483624000, 21971124);
    push_entry(v, 486253800, 23014380);
    push_entry(v, 488883600, 24113258);
    push_entry(v, 491513400, 25268619);
    push_entry(v, 494143200, 26479714);
    push_entry(v, 496773000, 27746917);
    push_entry(v, 499402800, 29071021);
    push_entry(v, 502032600, 30452164);
    push_entry(v, 504662400, 31889863);
    push_entry(v, 507292200, 33384339);
    push_entry(v, 509922000, 34935715);
    push_entry(v, 512551800, 36544036);
    push_entry(v, 515181600, 38209539);
    push_entry(v, 517811400, 39932595);
    push_entry(v, 520441200, 41712519);
    push_entry(v, 523071000, 43550739);
    push_entry(v, 525700800, 45447742);
    push_entry(v, 528330600, 47402891);
    push_entry(v, 530960400, 49415404);
    push_entry(v, 533590200, 51483542);
    proof {
        assert(v@ =~= old(v)@ + table_chunk_5());
    }
}

/// Appends the rows of `table_chunk_6`.
fn push_chunk_6(v: &mut Vec<Breakpoint>)
    requires
        strictly_ascending(old(v)@),
        old(v)@.len() > 0 ==> old(v)@.last().daa_threshold < 536220000,
    ensures
        final(v)@ == old(v)@ + table_chunk_6(),
        strictly_ascending(final(v)@),
        final(v)@.len() == old(v)@.len() + 33,
        final(v)@.last().daa_threshold == 621373600,
{
    push_entry(v, 536220000, 53607358);
    push_entry(v, 538849800, 55784920);
    push_entry(v, 541479600, 58013131);
    push_entry(v, 544109400, 60290554);
    push_entry(v, 546739200, 62616163);
    push_entry(v, 549369000, 64988689);
    push_entry(v, 552998800, 67406554);
    push_entry(v, 555628600, 69868107);
    push_entry(v, 558258400, 72370715);
    push_entry(v, 560888200, 74914643);
    push_entry(v, 563518000, 77504293);
    push_entry(v, 566147800, 80140805);
    push_entry(v, 568777600, 82824862);
    push_entry(v, 571407400, 85558615);
    push_entry(v, 574037200, 88342548);
    push_entry(v, 576667000, 91176738);
    push_entry(v, 579296800, 94061089);
    push_entry(v, 581926600, 96995827);
    push_entry(v, 584556400, 99981739);
    push_entry(v, 587186200, 103018801);
    push_entry(v, 589816000, 106108733);
    push_entry(v, 592445800, 109250556);
    push_entry(v, 595075600, 112446462);
    push_entry(v, 597705400, 115704183);
    push_entry(v, 600335200, 119029283);
    push_entry(v, 602965000, 122431324);
    push_entry(v, 605594800, 125908533);
    push_entry(v, 608224600, 129464635);
    push_entry(v, 610854400, 133104201);
    push_entry(v, 613484200, 136830438);
    push_entry(v, 616114000, 140644768);
    push_entry(v, 618743800, 144545977);
    push_entry(v, 621373600, 148542605);
    proof {
        assert(v@ =~= old(v)@ + table_chunk_6());
    }
}

/// Appends the rows of `table_chunk_7`.
fn push_chunk_7(v: &mut Vec<Breakpoint>)
    requires
        strictly_ascending(old(v)@),
        old(v)@.len() > 0 ==> old(v)@.last().daa_threshold < 624003400,
    ensures
        final(v)@ == old(v)@ + table_chunk_7(),
        strictly_ascending(final(v)@),
        final(v)@.len() == old(v)@.len() + 33,
        final(v)@.last().daa_threshold == 708157000,
{
    push_entry(v, 624003400, 152629285);
    push_entry(v, 626633200, 156805948);
    push_entry(v, 629263000, 161073863);
    push_entry(v, 631892800, 165433896);
    push_entry(v, 634522600, 169885337);
    push_entry(v, 637152400, 174430241);
    push_entry(v, 639782200, 179068070);
    push_entry(v, 642412000, 183802013);
    push_entry(v, 645041800, 188630739);
    push_entry(v, 647671600, 193554642);
    push_entry(v, 650301400, 198574777);
    push_entry(v, 652931200, 203690322);
    push_entry(v, 655561000, 208902358);
    push_entry(v, 658190800, 214211662);
    push_entry(v, 660820600, 219606986);
    push_entry(v, 663450400, 225097958);
    push_entry(v, 666080200, 230696614);
    push_entry(v, 668710000, 236403037);
    push_entry(v, 671339800, 242221310);
    push_entry(v, 673969600, 248157869);
    push_entry(v, 676599400, 254203909);
    push_entry(v, 679229200, 260360241);
    push_entry(v, 681859000, 266619334);
    push_entry(v, 684488800, 272984534);
    push_entry(v, 687118600, 279456452);
    push_entry(v, 689748400, 286038066);
    push_entry(v, 692378200, 292734309);
    push_entry(v, 695008000, 299543411);
    push_entry(v, 697637800, 306465069);
    push_entry(v, 700267600, 313497407);
    push_entry(v, 702897400, 320641090);
    push_entry(v, 705527200, 327896566);
    push_entry(v, 708157000, 335261108);
    proof {
        assert(v@ =~= old(v)@ + table_chunk_7());
    }
}

/// Builds the production schedule: 264 breakpoints, strictly
/// ascending in the threshold.
pub fn production_schedule() -> (r: Schedule)
    ensures
        r.wf(),
        r@ == production_table(),
        r@.len() == 264,
{
    let mut v: Vec<Breakpoint> = Vec::new();
    push_chunk_0(&mut v);
    push_chunk_1(&mut v);
    push_chunk_2(&mut v);
    push_chunk_3(&mut v);
    push_chunk_4(&mut v);
    push_chunk_5(&mut v);
    push_chunk_6(&mut v);
    push_chunk_7(&mut v);
    proof {
        assert(v@ =~= production_table());
    }
    Schedule::from_sorted(v)
}

} // verus!
