//! The table of named character references.
use vstd::prelude::*;

verus! {

/// One named character reference: its name without the trailing `;`,
/// whether it is also recognised without the `;`, and the one or two
/// characters it stands for.
pub struct EntityView {
    pub name: Seq<char>,
    pub legacy: bool,
    pub first: char,
    pub second: Option<char>,
}

/// The number of entries in the table.
pub const ENTITY_COUNT: usize = 218;

/// Entry `i` of the table.
pub open spec fn entity(i: usize) -> EntityView {
    match i {
        0 => EntityView { name: "nbsp"@, legacy: true, first: '\u{A0}', second: None },
        1 => EntityView { name: "iexcl"@, legacy: true, first: '\u{A1}', second: None },
        2 => EntityView { name: "cent"@, legacy: true, first: '\u{A2}', second: None },
        3 => EntityView { name: "pound"@, legacy: true, first: '\u{A3}', second: None },
        4 => EntityView { name: "curren"@, legacy: true, first: '\u{A4}', second: None },
        5 => EntityView { name: "yen"@, legacy: true, first: '\u{A5}', second: None },
        6 => EntityView { name: "brvbar"@, legacy: true, first: '\u{A6}', second: None },
        7 => EntityView { name: "sect"@, legacy: true, first: '\u{A7}', second: None },
        8 => EntityView { name: "uml"@, legacy: true, first: '\u{A8}', second: None },
        9 => EntityView { name: "copy"@, legacy: true, first: '\u{A9}', second: None },
        10 => EntityView { name: "ordf"@, legacy: true, first: '\u{AA}', second: None },
        11 => EntityView { name: "laquo"@, legacy: true, first: '\u{AB}', second: None },
        12 => EntityView { name: "not"@, legacy: true, first: '\u{AC}', second: None },
        13 => EntityView { name: "shy"@, legacy: true, first: '\u{AD}', second: None },
        14 => EntityView { name: "reg"@, legacy: true, first: '\u{AE}', second: None },
        15 => EntityView { name: "macr"@, legacy: true, first: '\u{AF}', second: None },
        16 => EntityView { name: "deg"@, legacy: true, first: '\u{B0}', second: None },
        17 => EntityView { name: "plusmn"@, legacy: true, first: '\u{B1}', second: None },
        18 => EntityView { name: "sup2"@, legacy: true, first: '\u{B2}', second: None },
        19 => EntityView { name: "sup3"@, legacy: true, first: '\u{B3}', second: None },
        20 => EntityView { name: "acute"@, legacy: true, first: '\u{B4}', second: None },
        21 => EntityView { name: "micro"@, legacy: true, first: '\u{B5}', second: None },
        22 => EntityView { name: "para"@, legacy: true, first: '\u{B6}', second: None },
        23 => EntityView { name: "middot"@, legacy: true, first: '\u{B7}', second: None },
        24 => EntityView { name: "cedil"@, legacy: true, first: '\u{B8}', second: None },
        25 => EntityView { name: "sup1"@, legacy: true, first: '\u{B9}', second: None },
        26 => EntityView { name: "ordm"@, legacy: true, first: '\u{BA}', second: None },
        27 => EntityView { name: "raquo"@, legacy: true, first: '\u{BB}', second: None },
        28 => EntityView { name: "frac14"@, legacy: true, first: '\u{BC}', second: None },
        29 => EntityView { name: "frac12"@, legacy: true, first: '\u{BD}', second: None },
        30 => EntityView { name: "frac34"@, legacy: true, first: '\u{BE}', second: None },
        31 => EntityView { name: "iquest"@, legacy: true, first: '\u{BF}', second: None },
        32 => EntityView { name: "Agrave"@, legacy: true, first: '\u{C0}', second: None },
        33 => EntityView { name: "Aacute"@, legacy: true, first: '\u{C1}', second: None },
        34 => EntityView { name: "Acirc"@, legacy: true, first: '\u{C2}', second: None },
        35 => EntityView { name: "Atilde"@, legacy: true, first: '\u{C3}', second: None },
        36 => EntityView { name: "Auml"@, legacy: true, first: '\u{C4}', second: None },
        37 => EntityView { name: "Aring"@, legacy: true, first: '\u{C5}', second: None },
        38 => EntityView { name: "AElig"@, legacy: true, first: '\u{C6}', second: None },
        39 => EntityView { name: "Ccedil"@, legacy: true, first: '\u{C7}', second: None },
        40 => EntityView { name: "Egrave"@, legacy: true, first: '\u{C8}', second: None },
        41 => EntityView { name: "Eacute"@, legacy: true, first: '\u{C9}', second: None },
        42 => EntityView { name: "Ecirc"@, legacy: true, first: '\u{CA}', second: None },
        43 => EntityView { name: "Euml"@, legacy: true, first: '\u{CB}', second: None },
        44 => EntityView { name: "Igrave"@, legacy: true, first: '\u{CC}', second: None },
        45 => EntityView { name: "Iacute"@, legacy: true, first: '\u{CD}', second: None },
        46 => EntityView { name: "Icirc"@, legacy: true, first: '\u{CE}', second: None },
        47 => EntityView { name: "Iuml"@, legacy: true, first: '\u{CF}', second: None },
        48 => EntityView { name: "ETH"@, legacy: true, first: '\u{D0}', second: None },
        49 => EntityView { name: "Ntilde"@, legacy: true, first: '\u{D1}', second: None },
        50 => EntityView { name: "Ograve"@, legacy: true, first: '\u{D2}', second: None },
        51 => EntityView { name: "Oacute"@, legacy: true, first: '\u{D3}', second: None },
        52 => EntityView { name: "Ocirc"@, legacy: true, first: '\u{D4}', second: None },
        53 => EntityView { name: "Otilde"@, legacy: true, first: '\u{D5}', second: None },
        54 => EntityView { name: "Ouml"@, legacy: true, first: '\u{D6}', second: None },
        55 => EntityView { name: "times"@, legacy: true, first: '\u{D7}', second: None },
        56 => EntityView { name: "Oslash"@, legacy: true, first: '\u{D8}', second: None },
        57 => EntityView { name: "Ugrave"@, legacy: true, first: '\u{D9}', second: None },
        58 => EntityView { name: "Uacute"@, legacy: true, first: '\u{DA}', second: None },
        59 => EntityView { name: "Ucirc"@, legacy: true, first: '\u{DB}', second: None },
        60 => EntityView { name: "Uuml"@, legacy: true, first: '\u{DC}', second: None },
        61 => EntityView { name: "Yacute"@, legacy: true, first: '\u{DD}', second: None },
        62 => EntityView { name: "THORN"@, legacy: true, first: '\u{DE}', second: None },
        63 => EntityView { name: "szlig"@, legacy: true, first: '\u{DF}', second: None },
        64 => EntityView { name: "agrave"@, legacy: true, first: '\u{E0}', second: None },
        65 => EntityView { name: "aacute"@, legacy: true, first: '\u{E1}', second: None },
        66 => EntityView { name: "acirc"@, legacy: true, first: '\u{E2}', second: None },
        67 => EntityView { name: "atilde"@, legacy: true, first: '\u{E3}', second: None },
        68 => EntityView { name: "auml"@, legacy: true, first: '\u{E4}', second: None },
        69 => EntityView { name: "aring"@, legacy: true, first: '\u{E5}', second: None },
        70 => EntityView { name: "aelig"@, legacy: true, first: '\u{E6}', second: None },
        71 => EntityView { name: "ccedil"@, legacy: true, first: '\u{E7}', second: None },
        72 => EntityView { name: "egrave"@, legacy: true, first: '\u{E8}', second: None },
        73 => EntityView { name: "eacute"@, legacy: true, first: '\u{E9}', second: None },
        74 => EntityView { name: "ecirc"@, legacy: true, first: '\u{EA}', second: None },
        75 => EntityView { name: "euml"@, legacy: true, first: '\u{EB}', second: None },
        76 => EntityView { name: "igrave"@, legacy: true, first: '\u{EC}', second: None },
        77 => EntityView { name: "iacute"@, legacy: true, first: '\u{ED}', second: None },
        78 => EntityView { name: "icirc"@, legacy: true, first: '\u{EE}', second: None },
        79 => EntityView { name: "iuml"@, legacy: true, first: '\u{EF}', second: None },
        80 => EntityView { name: "eth"@, legacy: true, first: '\u{F0}', second: None },
        81 => EntityView { name: "ntilde"@, legacy: true, first: '\u{F1}', second: None },
        82 => EntityView { name: "ograve"@, legacy: true, first: '\u{F2}', second: None },
        83 => EntityView { name: "oacute"@, legacy: true, first: '\u{F3}', second: None },
        84 => EntityView { name: "ocirc"@, legacy: true, first: '\u{F4}', second: None },
        85 => EntityView { name: "otilde"@, legacy: true, first: '\u{F5}', second: None },
        86 => EntityView { name: "ouml"@, legacy: true, first: '\u{F6}', second: None },
        87 => EntityView { name: "divide"@, legacy: true, first: '\u{F7}', second: None },
        88 => EntityView { name: "oslash"@, legacy: true, first: '\u{F8}', second: None },
        89 => EntityView { name: "ugrave"@, legacy: true, first: '\u{F9}', second: None },
        90 => EntityView { name: "uacute"@, legacy: true, first: '\u{FA}', second: None },
        91 => EntityView { name: "ucirc"@, legacy: true, first: '\u{FB}', second: None },
        92 => EntityView { name: "uuml"@, legacy: true, first: '\u{FC}', second: None },
        93 => EntityView { name: "yacute"@, legacy: true, first: '\u{FD}', second: None },
        94 => EntityView { name: "thorn"@, legacy: true, first: '\u{FE}', second: None },
        95 => EntityView { name: "yuml"@, legacy: true, first: '\u{FF}', second: None },
        96 => EntityView { name: "AMP"@, legacy: true, first: '\u{26}', second: None },
        97 => EntityView { name: "amp"@, legacy: true, first: '\u{26}', second: None },
        98 => EntityView { name: "COPY"@, legacy: true, first: '\u{A9}', second: None },
        99 => EntityView { name: "GT"@, legacy: true, first: '\u{3E}', second: None },
        100 => EntityView { name: "gt"@, legacy: true, first: '\u{3E}', second: None },
        101 => EntityView { name: "LT"@, legacy: true, first: '\u{3C}', second: None },
        102 => EntityView { name: "lt"@, legacy: true, first: '\u{3C}', second: None },
        103 => EntityView { name: "QUOT"@, legacy: true, first: '\u{22}', second: None },
        104 => EntityView { name: "quot"@, legacy: true, first: '\u{22}', second: None },
        105 => EntityView { name: "REG"@, legacy: true, first: '\u{AE}', second: None },
        106 => EntityView { name: "apos"@, legacy: false, first: '\u{27}', second: None },
        107 => EntityView { name: "Tab"@, legacy: false, first: '\u{9}', second: None },
        108 => EntityView { name: "NewLine"@, legacy: false, first: '\u{A}', second: None },
        109 => EntityView { name: "excl"@, legacy: false, first: '\u{21}', second: None },
        110 => EntityView { name: "num"@, legacy: false, first: '\u{23}', second: None },
        111 => EntityView { name: "dollar"@, legacy: false, first: '\u{24}', second: None },
        112 => EntityView { name: "percnt"@, legacy: false, first: '\u{25}', second: None },
        113 => EntityView { name: "lpar"@, legacy: false, first: '\u{28}', second: None },
        114 => EntityView { name: "rpar"@, legacy: false, first: '\u{29}', second: None },
        115 => EntityView { name: "ast"@, legacy: false, first: '\u{2A}', second: None },
        116 => EntityView { name: "plus"@, legacy: false, first: '\u{2B}', second: None },
        117 => EntityView { name: "comma"@, legacy: false, first: '\u{2C}', second: None },
        118 => EntityView { name: "period"@, legacy: false, first: '\u{2E}', second: None },
        119 => EntityView { name: "sol"@, legacy: false, first: '\u{2F}', second: None },
        120 => EntityView { name: "colon"@, legacy: false, first: '\u{3A}', second: None },
        121 => EntityView { name: "semi"@, legacy: false, first: '\u{3B}', second: None },
        122 => EntityView { name: "equals"@, legacy: false, first: '\u{3D}', second: None },
        123 => EntityView { name: "quest"@, legacy: false, first: '\u{3F}', second: None },
        124 => EntityView { name: "commat"@, legacy: false, first: '\u{40}', second: None },
        125 => EntityView { name: "lsqb"@, legacy: false, first: '\u{5B}', second: None },
        126 => EntityView { name: "bsol"@, legacy: false, first: '\u{5C}', second: None },
        127 => EntityView { name: "rsqb"@, legacy: false, first: '\u{5D}', second: None },
        128 => EntityView { name: "Hat"@, legacy: false, first: '\u{5E}', second: None },
        129 => EntityView { name: "lowbar"@, legacy: false, first: '\u{5F}', second: None },
        130 => EntityView { name: "grave"@, legacy: false, first: '\u{60}', second: None },
        131 => EntityView { name: "lcub"@, legacy: false, first: '\u{7B}', second: None },
        132 => EntityView { name: "verbar"@, legacy: false, first: '\u{7C}', second: None },
        133 => EntityView { name: "rcub"@, legacy: false, first: '\u{7D}', second: None },
        134 => EntityView { name: "OElig"@, legacy: false, first: '\u{152}', second: None },
        135 => EntityView { name: "oelig"@, legacy: false, first: '\u{153}', second: None },
        136 => EntityView { name: "Scaron"@, legacy: false, first: '\u{160}', second: None },
        137 => EntityView { name: "scaron"@, legacy: false, first: '\u{161}', second: None },
        138 => EntityView { name: "Yuml"@, legacy: false, first: '\u{178}', second: None },
        139 => EntityView { name: "fnof"@, legacy: false, first: '\u{192}', second: None },
        140 => EntityView { name: "circ"@, legacy: false, first: '\u{2C6}', second: None },
        141 => EntityView { name: "tilde"@, legacy: false, first: '\u{2DC}', second: None },
        142 => EntityView { name: "Omega"@, legacy: false, first: '\u{3A9}', second: None },
        143 => EntityView { name: "alpha"@, legacy: false, first: '\u{3B1}', second: None },
        144 => EntityView { name: "beta"@, legacy: false, first: '\u{3B2}', second: None },
        145 => EntityView { name: "gamma"@, legacy: false, first: '\u{3B3}', second: None },
        146 => EntityView { name: "delta"@, legacy: false, first: '\u{3B4}', second: None },
        147 => EntityView { name: "pi"@, legacy: false, first: '\u{3C0}', second: None },
        148 => EntityView { name: "sigma"@, legacy: false, first: '\u{3C3}', second: None },
        149 => EntityView { name: "omega"@, legacy: false, first: '\u{3C9}', second: None },
        150 => EntityView { name: "ensp"@, legacy: false, first: '\u{2002}', second: None },
        151 => EntityView { name: "emsp"@, legacy: false, first: '\u{2003}', second: None },
        152 => EntityView { name: "thinsp"@, legacy: false, first: '\u{2009}', second: None },
        153 => EntityView { name: "zwnj"@, legacy: false, first: '\u{200C}', second: None },
        154 => EntityView { name: "zwj"@, legacy: false, first: '\u{200D}', second: None },
        155 => EntityView { name: "lrm"@, legacy: false, first: '\u{200E}', second: None },
        156 => EntityView { name: "rlm"@, legacy: false, first: '\u{200F}', second: None },
        157 => EntityView { name: "ndash"@, legacy: false, first: '\u{2013}', second: None },
        158 => EntityView { name: "mdash"@, legacy: false, first: '\u{2014}', second: None },
        159 => EntityView { name: "lsquo"@, legacy: false, first: '\u{2018}', second: None },
        160 => EntityView { name: "rsquo"@, legacy: false, first: '\u{2019}', second: None },
        161 => EntityView { name: "sbquo"@, legacy: false, first: '\u{201A}', second: None },
        162 => EntityView { name: "ldquo"@, legacy: false, first: '\u{201C}', second: None },
        163 => EntityView { name: "rdquo"@, legacy: false, first: '\u{201D}', second: None },
        164 => EntityView { name: "bdquo"@, legacy: false, first: '\u{201E}', second: None },
        165 => EntityView { name: "dagger"@, legacy: false, first: '\u{2020}', second: None },
        166 => EntityView { name: "Dagger"@, legacy: false, first: '\u{2021}', second: None },
        167 => EntityView { name: "bull"@, legacy: false, first: '\u{2022}', second: None },
        168 => EntityView { name: "hellip"@, legacy: false, first: '\u{2026}', second: None },
        169 => EntityView { name: "permil"@, legacy: false, first: '\u{2030}', second: None },
        170 => EntityView { name: "prime"@, legacy: false, first: '\u{2032}', second: None },
        171 => EntityView { name: "Prime"@, legacy: false, first: '\u{2033}', second: None },
        172 => EntityView { name: "lsaquo"@, legacy: false, first: '\u{2039}', second: None },
        173 => EntityView { name: "rsaquo"@, legacy: false, first: '\u{203A}', second: None },
        174 => EntityView { name: "oline"@, legacy: false, first: '\u{203E}', second: None },
        175 => EntityView { name: "frasl"@, legacy: false, first: '\u{2044}', second: None },
        176 => EntityView { name: "euro"@, legacy: false, first: '\u{20AC}', second: None },
        177 => EntityView { name: "trade"@, legacy: false, first: '\u{2122}', second: None },
        178 => EntityView { name: "larr"@, legacy: false, first: '\u{2190}', second: None },
        179 => EntityView { name: "uarr"@, legacy: false, first: '\u{2191}', second: None },
        180 => EntityView { name: "rarr"@, legacy: false, first: '\u{2192}', second: None },
        181 => EntityView { name: "darr"@, legacy: false, first: '\u{2193}', second: None },
        182 => EntityView { name: "harr"@, legacy: false, first: '\u{2194}', second: None },
        183 => EntityView { name: "rArr"@, legacy: false, first: '\u{21D2}', second: None },
        184 => EntityView { name: "hArr"@, legacy: false, first: '\u{21D4}', second: None },
        185 => EntityView { name: "forall"@, legacy: false, first: '\u{2200}', second: None },
        186 => EntityView { name: "part"@, legacy: false, first: '\u{2202}', second: None },
        187 => EntityView { name: "exist"@, legacy: false, first: '\u{2203}', second: None },
        188 => EntityView { name: "empty"@, legacy: false, first: '\u{2205}', second: None },
        189 => EntityView { name: "nabla"@, legacy: false, first: '\u{2207}', second: None },
        190 => EntityView { name: "isin"@, legacy: false, first: '\u{2208}', second: None },
        191 => EntityView { name: "notin"@, legacy: false, first: '\u{2209}', second: None },
        192 => EntityView { name: "ni"@, legacy: false, first: '\u{220B}', second: None },
        193 => EntityView { name: "prod"@, legacy: false, first: '\u{220F}', second: None },
        194 => EntityView { name: "sum"@, legacy: false, first: '\u{2211}', second: None },
        195 => EntityView { name: "minus"@, legacy: false, first: '\u{2212}', second: None },
        196 => EntityView { name: "infin"@, legacy: false, first: '\u{221E}', second: None },
        197 => EntityView { name: "and"@, legacy: false, first: '\u{2227}', second: None },
        198 => EntityView { name: "or"@, legacy: false, first: '\u{2228}', second: None },
        199 => EntityView { name: "cap"@, legacy: false, first: '\u{2229}', second: None },
        200 => EntityView { name: "cup"@, legacy: false, first: '\u{222A}', second: None },
        201 => EntityView { name: "int"@, legacy: false, first: '\u{222B}', second: None },
        202 => EntityView { name: "ne"@, legacy: false, first: '\u{2260}', second: None },
        203 => EntityView { name: "equiv"@, legacy: false, first: '\u{2261}', second: None },
        204 => EntityView { name: "le"@, legacy: false, first: '\u{2264}', second: None },
        205 => EntityView { name: "ge"@, legacy: false, first: '\u{2265}', second: None },
        206 => EntityView { name: "sub"@, legacy: false, first: '\u{2282}', second: None },
        207 => EntityView { name: "sup"@, legacy: false, first: '\u{2283}', second: None },
        208 => EntityView { name: "loz"@, legacy: false, first: '\u{25CA}', second: None },
        209 => EntityView { name: "spades"@, legacy: false, first: '\u{2660}', second: None },
        210 => EntityView { name: "clubs"@, legacy: false, first: '\u{2663}', second: None },
        211 => EntityView { name: "hearts"@, legacy: false, first: '\u{2665}', second: None },
        212 => EntityView { name: "diams"@, legacy: false, first: '\u{2666}', second: None },
        213 => EntityView { name: "nvlt"@, legacy: false, first: '\u{3C}', second: Some('\u{20D2}') },
        214 => EntityView { name: "nvgt"@, legacy: false, first: '\u{3E}', second: Some('\u{20D2}') },
        215 => EntityView { name: "bne"@, legacy: false, first: '\u{3D}', second: Some('\u{20E5}') },
        216 => EntityView { name: "NotEqualTilde"@, legacy: false, first: '\u{2242}', second: Some('\u{338}') },
        217 => EntityView { name: "fjlig"@, legacy: false, first: '\u{66}', second: Some('\u{6A}') },
        _ => EntityView { name: Seq::empty(), legacy: false, first: '\u{FFFD}', second: None },
    }
}

/// Entry `i` of the table, as name, legacy flag and characters.
pub fn entity_at(i: usize) -> (r: (&'static str, bool, char, Option<char>))
    requires
        i < ENTITY_COUNT,
    ensures
        r.0@ == entity(i).name,
        r.1 == entity(i).legacy,
        r.2 == entity(i).first,
        r.3 == entity(i).second,
{
    match i {
        0 => ("nbsp", true, '\u{A0}', None),
        1 => ("iexcl", true, '\u{A1}', None),
        2 => ("cent", true, '\u{A2}', None),
        3 => ("pound", true, '\u{A3}', None),
        4 => ("curren", true, '\u{A4}', None),
        5 => ("yen", true, '\u{A5}', None),
        6 => ("brvbar", true, '\u{A6}', None),
        7 => ("sect", true, '\u{A7}', None),
        8 => ("uml", true, '\u{A8}', None),
        9 => ("copy", true, '\u{A9}', None),
        10 => ("ordf", true, '\u{AA}', None),
        11 => ("laquo", true, '\u{AB}', None),
        12 => ("not", true, '\u{AC}', None),
        13 => ("shy", true, '\u{AD}', None),
        14 => ("reg", true, '\u{AE}', None),
        15 => ("macr", true, '\u{AF}', None),
        16 => ("deg", true, '\u{B0}', None),
        17 => ("plusmn", true, '\u{B1}', None),
        18 => ("sup2", true, '\u{B2}', None),
        19 => ("sup3", true, '\u{B3}', None),
        20 => ("acute", true, '\u{B4}', None),
        21 => ("micro", true, '\u{B5}', None),
        22 => ("para", true, '\u{B6}', None),
        23 => ("middot", true, '\u{B7}', None),
        24 => ("cedil", true, '\u{B8}', None),
        25 => ("sup1", true, '\u{B9}', None),
        26 => ("ordm", true, '\u{BA}', None),
        27 => ("raquo", true, '\u{BB}', None),
        28 => ("frac14", true, '\u{BC}', None),
        29 => ("frac12", true, '\u{BD}', None),
        30 => ("frac34", true, '\u{BE}', None),
        31 => ("iquest", true, '\u{BF}', None),
        32 => ("Agrave", true, '\u{C0}', None),
        33 => ("Aacute", true, '\u{C1}', None),
        34 => ("Acirc", true, '\u{C2}', None),
        35 => ("Atilde", true, '\u{C3}', None),
        36 => ("Auml", true, '\u{C4}', None),
        37 => ("Aring", true, '\u{C5}', None),
        38 => ("AElig", true, '\u{C6}', None),
        39 => ("Ccedil", true, '\u{C7}', None),
        40 => ("Egrave", true, '\u{C8}', None),
        41 => ("Eacute", true, '\u{C9}', None),
        42 => ("Ecirc", true, '\u{CA}', None),
        43 => ("Euml", true, '\u{CB}', None),
        44 => ("Igrave", true, '\u{CC}', None),
        45 => ("Iacute", true, '\u{CD}', None),
        46 => ("Icirc", true, '\u{CE}', None),
        47 => ("Iuml", true, '\u{CF}', None),
        48 => ("ETH", true, '\u{D0}', None),
        49 => ("Ntilde", true, '\u{D1}', None),
        50 => ("Ograve", true, '\u{D2}', None),
        51 => ("Oacute", true, '\u{D3}', None),
        52 => ("Ocirc", true, '\u{D4}', None),
        53 => ("Otilde", true, '\u{D5}', None),
        54 => ("Ouml", true, '\u{D6}', None),
        55 => ("times", true, '\u{D7}', None),
        56 => ("Oslash", true, '\u{D8}', None),
        57 => ("Ugrave", true, '\u{D9}', None),
        58 => ("Uacute", true, '\u{DA}', None),
        59 => ("Ucirc", true, '\u{DB}', None),
        60 => ("Uuml", true, '\u{DC}', None),
        61 => ("Yacute", true, '\u{DD}', None),
        62 => ("THORN", true, '\u{DE}', None),
        63 => ("szlig", true, '\u{DF}', None),
        64 => ("agrave", true, '\u{E0}', None),
        65 => ("aacute", true, '\u{E1}', None),
        66 => ("acirc", true, '\u{E2}', None),
        67 => ("atilde", true, '\u{E3}', None),
        68 => ("auml", true, '\u{E4}', None),
        69 => ("aring", true, '\u{E5}', None),
        70 => ("aelig", true, '\u{E6}', None),
        71 => ("ccedil", true, '\u{E7}', None),
        72 => ("egrave", true, '\u{E8}', None),
        73 => ("eacute", true, '\u{E9}', None),
        74 => ("ecirc", true, '\u{EA}', None),
        75 => ("euml", true, '\u{EB}', None),
        76 => ("igrave", true, '\u{EC}', None),
        77 => ("iacute", true, '\u{ED}', None),
        78 => ("icirc", true, '\u{EE}', None),
        79 => ("iuml", true, '\u{EF}', None),
        80 => ("eth", true, '\u{F0}', None),
        81 => ("ntilde", true, '\u{F1}', None),
        82 => ("ograve", true, '\u{F2}', None),
        83 => ("oacute", true, '\u{F3}', None),
        84 => ("ocirc", true, '\u{F4}', None),
        85 => ("otilde", true, '\u{F5}', None),
        86 => ("ouml", true, '\u{F6}', None),
        87 => ("divide", true, '\u{F7}', None),
        88 => ("oslash", true, '\u{F8}', None),
        89 => ("ugrave", true, '\u{F9}', None),
        90 => ("uacute", true, '\u{FA}', None),
        91 => ("ucirc", true, '\u{FB}', None),
        92 => ("uuml", true, '\u{FC}', None),
        93 => ("yacute", true, '\u{FD}', None),
        94 => ("thorn", true, '\u{FE}', None),
        95 => ("yuml", true, '\u{FF}', None),
        96 => ("AMP", true, '\u{26}', None),
        97 => ("amp", true, '\u{26}', None),
        98 => ("COPY", true, '\u{A9}', None),
        99 => ("GT", true, '\u{3E}', None),
        100 => ("gt", true, '\u{3E}', None),
        101 => ("LT", true, '\u{3C}', None),
        102 => ("lt", true, '\u{3C}', None),
        103 => ("QUOT", true, '\u{22}', None),
        104 => ("quot", true, '\u{22}', None),
        105 => ("REG", true, '\u{AE}', None),
        106 => ("apos", false, '\u{27}', None),
        107 => ("Tab", false, '\u{9}', None),
        108 => ("NewLine", false, '\u{A}', None),
        109 => ("excl", false, '\u{21}', None),
        110 => ("num", false, '\u{23}', None),
        111 => ("dollar", false, '\u{24}', None),
        112 => ("percnt", false, '\u{25}', None),
        113 => ("lpar", false, '\u{28}', None),
        114 => ("rpar", false, '\u{29}', None),
        115 => ("ast", false, '\u{2A}', None),
        116 => ("plus", false, '\u{2B}', None),
        117 => ("comma", false, '\u{2C}', None),
        118 => ("period", false, '\u{2E}', None),
        119 => ("sol", false, '\u{2F}', None),
        120 => ("colon", false, '\u{3A}', None),
        121 => ("semi", false, '\u{3B}', None),
        122 => ("equals", false, '\u{3D}', None),
        123 => ("quest", false, '\u{3F}', None),
        124 => ("commat", false, '\u{40}', None),
        125 => ("lsqb", false, '\u{5B}', None),
        126 => ("bsol", false, '\u{5C}', None),
        127 => ("rsqb", false, '\u{5D}', None),
        128 => ("Hat", false, '\u{5E}', None),
        129 => ("lowbar", false, '\u{5F}', None),
        130 => ("grave", false, '\u{60}', None),
        131 => ("lcub", false, '\u{7B}', None),
        132 => ("verbar", false, '\u{7C}', None),
        133 => ("rcub", false, '\u{7D}', None),
        134 => ("OElig", false, '\u{152}', None),
        135 => ("oelig", false, '\u{153}', None),
        136 => ("Scaron", false, '\u{160}', None),
        137 => ("scaron", false, '\u{161}', None),
        138 => ("Yuml", false, '\u{178}', None),
        139 => ("fnof", false, '\u{192}', None),
        140 => ("circ", false, '\u{2C6}', None),
        141 => ("tilde", false, '\u{2DC}', None),
        142 => ("Omega", false, '\u{3A9}', None),
        143 => ("alpha", false, '\u{3B1}', None),
        144 => ("beta", false, '\u{3B2}', None),
        145 => ("gamma", false, '\u{3B3}', None),
        146 => ("delta", false, '\u{3B4}', None),
        147 => ("pi", false, '\u{3C0}', None),
        148 => ("sigma", false, '\u{3C3}', None),
        149 => ("omega", false, '\u{3C9}', None),
        150 => ("ensp", false, '\u{2002}', None),
        151 => ("emsp", false, '\u{2003}', None),
        152 => ("thinsp", false, '\u{2009}', None),
        153 => ("zwnj", false, '\u{200C}', None),
        154 => ("zwj", false, '\u{200D}', None),
        155 => ("lrm", false, '\u{200E}', None),
        156 => ("rlm", false, '\u{200F}', None),
        157 => ("ndash", false, '\u{2013}', None),
        158 => ("mdash", false, '\u{2014}', None),
        159 => ("lsquo", false, '\u{2018}', None),
        160 => ("rsquo", false, '\u{2019}', None),
        161 => ("sbquo", false, '\u{201A}', None),
        162 => ("ldquo", false, '\u{201C}', None),
        163 => ("rdquo", false, '\u{201D}', None),
        164 => ("bdquo", false, '\u{201E}', None),
        165 => ("dagger", false, '\u{2020}', None),
        166 => ("Dagger", false, '\u{2021}', None),
        167 => ("bull", false, '\u{2022}', None),
        168 => ("hellip", false, '\u{2026}', None),
        169 => ("permil", false, '\u{2030}', None),
        170 => ("prime", false, '\u{2032}', None),
        171 => ("Prime", false, '\u{2033}', None),
        172 => ("lsaquo", false, '\u{2039}', None),
        173 => ("rsaquo", false, '\u{203A}', None),
        174 => ("oline", false, '\u{203E}', None),
        175 => ("frasl", false, '\u{2044}', None),
        176 => ("euro", false, '\u{20AC}', None),
        177 => ("trade", false, '\u{2122}', None),
        178 => ("larr", false, '\u{2190}', None),
        179 => ("uarr", false, '\u{2191}', None),
        180 => ("rarr", false, '\u{2192}', None),
        181 => ("darr", false, '\u{2193}', None),
        182 => ("harr", false, '\u{2194}', None),
        183 => ("rArr", false, '\u{21D2}', None),
        184 => ("hArr", false, '\u{21D4}', None),
        185 => ("forall", false, '\u{2200}', None),
        186 => ("part", false, '\u{2202}', None),
        187 => ("exist", false, '\u{2203}', None),
        188 => ("empty", false, '\u{2205}', None),
        189 => ("nabla", false, '\u{2207}', None),
        190 => ("isin", false, '\u{2208}', None),
        191 => ("notin", false, '\u{2209}', None),
        192 => ("ni", false, '\u{220B}', None),
        193 => ("prod", false, '\u{220F}', None),
        194 => ("sum", false, '\u{2211}', None),
        195 => ("minus", false, '\u{2212}', None),
        196 => ("infin", false, '\u{221E}', None),
        197 => ("and", false, '\u{2227}', None),
        198 => ("or", false, '\u{2228}', None),
        199 => ("cap", false, '\u{2229}', None),
        200 => ("cup", false, '\u{222A}', None),
        201 => ("int", false, '\u{222B}', None),
        202 => ("ne", false, '\u{2260}', None),
        203 => ("equiv", false, '\u{2261}', None),
        204 => ("le", false, '\u{2264}', None),
        205 => ("ge", false, '\u{2265}', None),
        206 => ("sub", false, '\u{2282}', None),
        207 => ("sup", false, '\u{2283}', None),
        208 => ("loz", false, '\u{25CA}', None),
        209 => ("spades", false, '\u{2660}', None),
        210 => ("clubs", false, '\u{2663}', None),
        211 => ("hearts", false, '\u{2665}', None),
        212 => ("diams", false, '\u{2666}', None),
        213 => ("nvlt", false, '\u{3C}', Some('\u{20D2}')),
        214 => ("nvgt", false, '\u{3E}', Some('\u{20D2}')),
        215 => ("bne", false, '\u{3D}', Some('\u{20E5}')),
        216 => ("NotEqualTilde", false, '\u{2242}', Some('\u{338}')),
        217 => ("fjlig", false, '\u{66}', Some('\u{6A}')),
        _ => ("", false, '\u{FFFD}', None),
    }
}

} // verus!
