use marksman_escape::get_named_ref;

fn check(name: &str, expansion: &str) {
    assert_eq!(get_named_ref(name.as_bytes()), Some(expansion.as_bytes().to_vec()));
}

#[test]
fn names_in_capital_a() {
    check("AElig", "\u{C6}");
    check("AElig;", "\u{C6}");
    check("AMP", "\u{26}");
    check("AMP;", "\u{26}");
    check("Aacute", "\u{C1}");
    check("Aacute;", "\u{C1}");
    check("Abreve;", "\u{102}");
    check("Acirc", "\u{C2}");
    check("Acirc;", "\u{C2}");
    check("Acy;", "\u{410}");
    check("Afr;", "\u{1D504}");
    check("Agrave", "\u{C0}");
    check("Agrave;", "\u{C0}");
    check("Alpha;", "\u{391}");
    check("Amacr;", "\u{100}");
    check("And;", "\u{2A53}");
    check("Aogon;", "\u{104}");
    check("Aopf;", "\u{1D538}");
    check("ApplyFunction;", "\u{2061}");
    check("Aring", "\u{C5}");
    check("Aring;", "\u{C5}");
    check("Ascr;", "\u{1D49C}");
    check("Assign;", "\u{2254}");
    check("Atilde", "\u{C3}");
    check("Atilde;", "\u{C3}");
    check("Auml", "\u{C4}");
    check("Auml;", "\u{C4}");
}

#[test]
fn names_in_capital_b() {
    check("Backslash;", "\u{2216}");
    check("Barv;", "\u{2AE7}");
    check("Barwed;", "\u{2306}");
    check("Bcy;", "\u{411}");
    check("Because;", "\u{2235}");
    check("Bernoullis;", "\u{212C}");
    check("Beta;", "\u{392}");
    check("Bfr;", "\u{1D505}");
    check("Bopf;", "\u{1D539}");
    check("Breve;", "\u{2D8}");
    check("Bscr;", "\u{212C}");
    check("Bumpeq;", "\u{224E}");
}

#[test]
fn names_in_capital_c() {
    check("CHcy;", "\u{427}");
    check("COPY", "\u{A9}");
    check("COPY;", "\u{A9}");
    check("Cacute;", "\u{106}");
    check("Cap;", "\u{22D2}");
    check("CapitalDifferentialD;", "\u{2145}");
    check("Cayleys;", "\u{212D}");
    check("Ccaron;", "\u{10C}");
    check("Ccedil", "\u{C7}");
    check("Ccedil;", "\u{C7}");
    check("Ccirc;", "\u{108}");
    check("Cconint;", "\u{2230}");
    check("Cdot;", "\u{10A}");
    check("Cedilla;", "\u{B8}");
    check("CenterDot;", "\u{B7}");
    check("Cfr;", "\u{212D}");
    check("Chi;", "\u{3A7}");
    check("CircleDot;", "\u{2299}");
    check("CircleMinus;", "\u{2296}");
    check("CirclePlus;", "\u{2295}");
    check("CircleTimes;", "\u{2297}");
    check("ClockwiseContourIntegral;", "\u{2232}");
    check("CloseCurlyDoubleQuote;", "\u{201D}");
    check("CloseCurlyQuote;", "\u{2019}");
    check("Colon;", "\u{2237}");
    check("Colone;", "\u{2A74}");
    check("Congruent;", "\u{2261}");
    check("Conint;", "\u{222F}");
    check("ContourIntegral;", "\u{222E}");
    check("Copf;", "\u{2102}");
    check("Coproduct;", "\u{2210}");
    check("CounterClockwiseContourIntegral;", "\u{2233}");
    check("Cross;", "\u{2A2F}");
    check("Cscr;", "\u{1D49E}");
    check("Cup;", "\u{22D3}");
    check("CupCap;", "\u{224D}");
}

#[test]
fn names_in_capital_d() {
    check("DD;", "\u{2145}");
    check("DDotrahd;", "\u{2911}");
    check("DJcy;", "\u{402}");
    check("DScy;", "\u{405}");
    check("DZcy;", "\u{40F}");
    check("Dagger;", "\u{2021}");
    check("Darr;", "\u{21A1}");
    check("Dashv;", "\u{2AE4}");
    check("Dcaron;", "\u{10E}");
    check("Dcy;", "\u{414}");
    check("Del;", "\u{2207}");
    check("Delta;", "\u{394}");
    check("Dfr;", "\u{1D507}");
    check("DiacriticalAcute;", "\u{B4}");
    check("DiacriticalDot;", "\u{2D9}");
    check("DiacriticalDoubleAcute;", "\u{2DD}");
    check("DiacriticalGrave;", "\u{60}");
    check("DiacriticalTilde;", "\u{2DC}");
    check("Diamond;", "\u{22C4}");
    check("DifferentialD;", "\u{2146}");
    check("Dopf;", "\u{1D53B}");
    check("Dot;", "\u{A8}");
    check("DotDot;", "\u{20DC}");
    check("DotEqual;", "\u{2250}");
    check("DoubleContourIntegral;", "\u{222F}");
    check("DoubleDot;", "\u{A8}");
    check("DoubleDownArrow;", "\u{21D3}");
    check("DoubleLeftArrow;", "\u{21D0}");
    check("DoubleLeftRightArrow;", "\u{21D4}");
    check("DoubleLeftTee;", "\u{2AE4}");
    check("DoubleLongLeftArrow;", "\u{27F8}");
    check("DoubleLongLeftRightArrow;", "\u{27FA}");
    check("DoubleLongRightArrow;", "\u{27F9}");
    check("DoubleRightArrow;", "\u{21D2}");
    check("DoubleRightTee;", "\u{22A8}");
    check("DoubleUpArrow;", "\u{21D1}");
    check("DoubleUpDownArrow;", "\u{21D5}");
    check("DoubleVerticalBar;", "\u{2225}");
    check("DownArrow;", "\u{2193}");
    check("DownArrowBar;", "\u{2913}");
    check("DownArrowUpArrow;", "\u{21F5}");
    check("DownBreve;", "\u{311}");
    check("DownLeftRightVector;", "\u{2950}");
    check("DownLeftTeeVector;", "\u{295E}");
    check("DownLeftVector;", "\u{21BD}");
    check("DownLeftVectorBar;", "\u{2956}");
    check("DownRightTeeVector;", "\u{295F}");
    check("DownRightVector;", "\u{21C1}");
    check("DownRightVectorBar;", "\u{2957}");
    check("DownTee;", "\u{22A4}");
    check("DownTeeArrow;", "\u{21A7}");
    check("Downarrow;", "\u{21D3}");
    check("Dscr;", "\u{1D49F}");
    check("Dstrok;", "\u{110}");
}

#[test]
fn names_in_capital_e() {
    check("ENG;", "\u{14A}");
    check("ETH", "\u{D0}");
    check("ETH;", "\u{D0}");
    check("Eacute", "\u{C9}");
    check("Eacute;", "\u{C9}");
    check("Ecaron;", "\u{11A}");
    check("Ecirc", "\u{CA}");
    check("Ecirc;", "\u{CA}");
    check("Ecy;", "\u{42D}");
    check("Edot;", "\u{116}");
    check("Efr;", "\u{1D508}");
    check("Egrave", "\u{C8}");
    check("Egrave;", "\u{C8}");
    check("Element;", "\u{2208}");
    check("Emacr;", "\u{112}");
    check("EmptySmallSquare;", "\u{25FB}");
    check("EmptyVerySmallSquare;", "\u{25AB}");
    check("Eogon;", "\u{118}");
    check("Eopf;", "\u{1D53C}");
    check("Epsilon;", "\u{395}");
    check("Equal;", "\u{2A75}");
    check("EqualTilde;", "\u{2242}");
    check("Equilibrium;", "\u{21CC}");
    check("Escr;", "\u{2130}");
    check("Esim;", "\u{2A73}");
    check("Eta;", "\u{397}");
    check("Euml", "\u{CB}");
    check("Euml;", "\u{CB}");
    check("Exists;", "\u{2203}");
    check("ExponentialE;", "\u{2147}");
}

#[test]
fn names_in_capital_f() {
    check("Fcy;", "\u{424}");
    check("Ffr;", "\u{1D509}");
    check("FilledSmallSquare;", "\u{25FC}");
    check("FilledVerySmallSquare;", "\u{25AA}");
    check("Fopf;", "\u{1D53D}");
    check("ForAll;", "\u{2200}");
    check("Fouriertrf;", "\u{2131}");
    check("Fscr;", "\u{2131}");
}

#[test]
fn names_in_capital_g() {
    check("GJcy;", "\u{403}");
    check("GT", "\u{3E}");
    check("GT;", "\u{3E}");
    check("Gamma;", "\u{393}");
    check("Gammad;", "\u{3DC}");
    check("Gbreve;", "\u{11E}");
    check("Gcedil;", "\u{122}");
    check("Gcirc;", "\u{11C}");
    check("Gcy;", "\u{413}");
    check("Gdot;", "\u{120}");
    check("Gfr;", "\u{1D50A}");
    check("Gg;", "\u{22D9}");
    check("Gopf;", "\u{1D53E}");
    check("GreaterEqual;", "\u{2265}");
    check("GreaterEqualLess;", "\u{22DB}");
    check("GreaterFullEqual;", "\u{2267}");
    check("GreaterGreater;", "\u{2AA2}");
    check("GreaterLess;", "\u{2277}");
    check("GreaterSlantEqual;", "\u{2A7E}");
    check("GreaterTilde;", "\u{2273}");
    check("Gscr;", "\u{1D4A2}");
    check("Gt;", "\u{226B}");
}

#[test]
fn names_in_capital_h() {
    check("HARDcy;", "\u{42A}");
    check("Hacek;", "\u{2C7}");
    check("Hat;", "\u{5E}");
    check("Hcirc;", "\u{124}");
    check("Hfr;", "\u{210C}");
    check("HilbertSpace;", "\u{210B}");
    check("Hopf;", "\u{210D}");
    check("HorizontalLine;", "\u{2500}");
    check("Hscr;", "\u{210B}");
    check("Hstrok;", "\u{126}");
    check("HumpDownHump;", "\u{224E}");
    check("HumpEqual;", "\u{224F}");
}

#[test]
fn names_in_capital_i() {
    check("IEcy;", "\u{415}");
    check("IJlig;", "\u{132}");
    check("IOcy;", "\u{401}");
    check("Iacute", "\u{CD}");
    check("Iacute;", "\u{CD}");
    check("Icirc", "\u{CE}");
    check("Icirc;", "\u{CE}");
    check("Icy;", "\u{418}");
    check("Idot;", "\u{130}");
    check("Ifr;", "\u{2111}");
    check("Igrave", "\u{CC}");
    check("Igrave;", "\u{CC}");
    check("Im;", "\u{2111}");
    check("Imacr;", "\u{12A}");
    check("ImaginaryI;", "\u{2148}");
    check("Implies;", "\u{21D2}");
    check("Int;", "\u{222C}");
    check("Integral;", "\u{222B}");
    check("Intersection;", "\u{22C2}");
    check("InvisibleComma;", "\u{2063}");
    check("InvisibleTimes;", "\u{2062}");
    check("Iogon;", "\u{12E}");
    check("Iopf;", "\u{1D540}");
    check("Iota;", "\u{399}");
    check("Iscr;", "\u{2110}");
    check("Itilde;", "\u{128}");
    check("Iukcy;", "\u{406}");
    check("Iuml", "\u{CF}");
    check("Iuml;", "\u{CF}");
}

#[test]
fn names_in_capital_j() {
    check("Jcirc;", "\u{134}");
    check("Jcy;", "\u{419}");
    check("Jfr;", "\u{1D50D}");
    check("Jopf;", "\u{1D541}");
    check("Jscr;", "\u{1D4A5}");
    check("Jsercy;", "\u{408}");
    check("Jukcy;", "\u{404}");
}

#[test]
fn names_in_capital_k() {
    check("KHcy;", "\u{425}");
    check("KJcy;", "\u{40C}");
    check("Kappa;", "\u{39A}");
    check("Kcedil;", "\u{136}");
    check("Kcy;", "\u{41A}");
    check("Kfr;", "\u{1D50E}");
    check("Kopf;", "\u{1D542}");
    check("Kscr;", "\u{1D4A6}");
}

#[test]
fn names_in_capital_l() {
    check("LJcy;", "\u{409}");
    check("LT", "\u{3C}");
    check("LT;", "\u{3C}");
    check("Lacute;", "\u{139}");
    check("Lambda;", "\u{39B}");
    check("Lang;", "\u{27EA}");
    check("Laplacetrf;", "\u{2112}");
    check("Larr;", "\u{219E}");
    check("Lcaron;", "\u{13D}");
    check("Lcedil;", "\u{13B}");
    check("Lcy;", "\u{41B}");
    check("LeftAngleBracket;", "\u{27E8}");
    check("LeftArrow;", "\u{2190}");
    check("LeftArrowBar;", "\u{21E4}");
    check("LeftArrowRightArrow;", "\u{21C6}");
    check("LeftCeiling;", "\u{2308}");
    check("LeftDoubleBracket;", "\u{27E6}");
    check("LeftDownTeeVector;", "\u{2961}");
    check("LeftDownVector;", "\u{21C3}");
    check("LeftDownVectorBar;", "\u{2959}");
    check("LeftFloor;", "\u{230A}");
    check("LeftRightArrow;", "\u{2194}");
    check("LeftRightVector;", "\u{294E}");
    check("LeftTee;", "\u{22A3}");
    check("LeftTeeArrow;", "\u{21A4}");
    check("LeftTeeVector;", "\u{295A}");
    check("LeftTriangle;", "\u{22B2}");
    check("LeftTriangleBar;", "\u{29CF}");
    check("LeftTriangleEqual;", "\u{22B4}");
    check("LeftUpDownVector;", "\u{2951}");
    check("LeftUpTeeVector;", "\u{2960}");
    check("LeftUpVector;", "\u{21BF}");
    check("LeftUpVectorBar;", "\u{2958}");
    check("LeftVector;", "\u{21BC}");
    check("LeftVectorBar;", "\u{2952}");
    check("Leftarrow;", "\u{21D0}");
    check("Leftrightarrow;", "\u{21D4}");
    check("LessEqualGreater;", "\u{22DA}");
    check("LessFullEqual;", "\u{2266}");
    check("LessGreater;", "\u{2276}");
    check("LessLess;", "\u{2AA1}");
    check("LessSlantEqual;", "\u{2A7D}");
    check("LessTilde;", "\u{2272}");
    check("Lfr;", "\u{1D50F}");
    check("Ll;", "\u{22D8}");
    check("Lleftarrow;", "\u{21DA}");
    check("Lmidot;", "\u{13F}");
    check("LongLeftArrow;", "\u{27F5}");
    check("LongLeftRightArrow;", "\u{27F7}");
    check("LongRightArrow;", "\u{27F6}");
    check("Longleftarrow;", "\u{27F8}");
    check("Longleftrightarrow;", "\u{27FA}");
    check("Longrightarrow;", "\u{27F9}");
    check("Lopf;", "\u{1D543}");
    check("LowerLeftArrow;", "\u{2199}");
    check("LowerRightArrow;", "\u{2198}");
    check("Lscr;", "\u{2112}");
    check("Lsh;", "\u{21B0}");
    check("Lstrok;", "\u{141}");
    check("Lt;", "\u{226A}");
}

#[test]
fn names_in_capital_m() {
    check("Map;", "\u{2905}");
    check("Mcy;", "\u{41C}");
    check("MediumSpace;", "\u{205F}");
    check("Mellintrf;", "\u{2133}");
    check("Mfr;", "\u{1D510}");
    check("MinusPlus;", "\u{2213}");
    check("Mopf;", "\u{1D544}");
    check("Mscr;", "\u{2133}");
    check("Mu;", "\u{39C}");
}

#[test]
fn names_in_capital_n() {
    check("NJcy;", "\u{40A}");
    check("Nacute;", "\u{143}");
    check("Ncaron;", "\u{147}");
    check("Ncedil;", "\u{145}");
    check("Ncy;", "\u{41D}");
    check("NegativeMediumSpace;", "\u{200B}");
    check("NegativeThickSpace;", "\u{200B}");
    check("NegativeThinSpace;", "\u{200B}");
    check("NegativeVeryThinSpace;", "\u{200B}");
    check("NestedGreaterGreater;", "\u{226B}");
    check("NestedLessLess;", "\u{226A}");
    check("NewLine;", "\u{A}");
    check("Nfr;", "\u{1D511}");
    check("NoBreak;", "\u{2060}");
    check("NonBreakingSpace;", "\u{A0}");
    check("Nopf;", "\u{2115}");
    check("Not;", "\u{2AEC}");
    check("NotCongruent;", "\u{2262}");
    check("NotCupCap;", "\u{226D}");
    check("NotDoubleVerticalBar;", "\u{2226}");
    check("NotElement;", "\u{2209}");
    check("NotEqual;", "\u{2260}");
    check("NotEqualTilde;", "\u{2242}\u{338}");
    check("NotExists;", "\u{2204}");
    check("NotGreater;", "\u{226F}");
    check("NotGreaterEqual;", "\u{2271}");
    check("NotGreaterFullEqual;", "\u{2267}\u{338}");
    check("NotGreaterGreater;", "\u{226B}\u{338}");
    check("NotGreaterLess;", "\u{2279}");
    check("NotGreaterSlantEqual;", "\u{2A7E}\u{338}");
    check("NotGreaterTilde;", "\u{2275}");
    check("NotHumpDownHump;", "\u{224E}\u{338}");
    check("NotHumpEqual;", "\u{224F}\u{338}");
    check("NotLeftTriangle;", "\u{22EA}");
    check("NotLeftTriangleBar;", "\u{29CF}\u{338}");
    check("NotLeftTriangleEqual;", "\u{22EC}");
    check("NotLess;", "\u{226E}");
    check("NotLessEqual;", "\u{2270}");
    check("NotLessGreater;", "\u{2278}");
    check("NotLessLess;", "\u{226A}\u{338}");
    check("NotLessSlantEqual;", "\u{2A7D}\u{338}");
    check("NotLessTilde;", "\u{2274}");
    check("NotNestedGreaterGreater;", "\u{2AA2}\u{338}");
    check("NotNestedLessLess;", "\u{2AA1}\u{338}");
    check("NotPrecedes;", "\u{2280}");
    check("NotPrecedesEqual;", "\u{2AAF}\u{338}");
    check("NotPrecedesSlantEqual;", "\u{22E0}");
    check("NotReverseElement;", "\u{220C}");
    check("NotRightTriangle;", "\u{22EB}");
    check("NotRightTriangleBar;", "\u{29D0}\u{338}");
    check("NotRightTriangleEqual;", "\u{22ED}");
    check("NotSquareSubset;", "\u{228F}\u{338}");
    check("NotSquareSubsetEqual;", "\u{22E2}");
    check("NotSquareSuperset;", "\u{2290}\u{338}");
    check("NotSquareSupersetEqual;", "\u{22E3}");
    check("NotSubset;", "\u{2282}\u{20D2}");
    check("NotSubsetEqual;", "\u{2288}");
    check("NotSucceeds;", "\u{2281}");
    check("NotSucceedsEqual;", "\u{2AB0}\u{338}");
    check("NotSucceedsSlantEqual;", "\u{22E1}");
    check("NotSucceedsTilde;", "\u{227F}\u{338}");
    check("NotSuperset;", "\u{2283}\u{20D2}");
    check("NotSupersetEqual;", "\u{2289}");
    check("NotTilde;", "\u{2241}");
    check("NotTildeEqual;", "\u{2244}");
    check("NotTildeFullEqual;", "\u{2247}");
    check("NotTildeTilde;", "\u{2249}");
    check("NotVerticalBar;", "\u{2224}");
    check("Nscr;", "\u{1D4A9}");
    check("Ntilde", "\u{D1}");
    check("Ntilde;", "\u{D1}");
    check("Nu;", "\u{39D}");
}

#[test]
fn names_in_capital_o() {
    check("OElig;", "\u{152}");
    check("Oacute", "\u{D3}");
    check("Oacute;", "\u{D3}");
    check("Ocirc", "\u{D4}");
    check("Ocirc;", "\u{D4}");
    check("Ocy;", "\u{41E}");
    check("Odblac;", "\u{150}");
    check("Ofr;", "\u{1D512}");
    check("Ograve", "\u{D2}");
    check("Ograve;", "\u{D2}");
    check("Omacr;", "\u{14C}");
    check("Omega;", "\u{3A9}");
    check("Omicron;", "\u{39F}");
    check("Oopf;", "\u{1D546}");
    check("OpenCurlyDoubleQuote;", "\u{201C}");
    check("OpenCurlyQuote;", "\u{2018}");
    check("Or;", "\u{2A54}");
    check("Oscr;", "\u{1D4AA}");
    check("Oslash", "\u{D8}");
    check("Oslash;", "\u{D8}");
    check("Otilde", "\u{D5}");
    check("Otilde;", "\u{D5}");
    check("Otimes;", "\u{2A37}");
    check("Ouml", "\u{D6}");
    check("Ouml;", "\u{D6}");
    check("OverBar;", "\u{203E}");
    check("OverBrace;", "\u{23DE}");
    check("OverBracket;", "\u{23B4}");
    check("OverParenthesis;", "\u{23DC}");
}

#[test]
fn names_in_capital_p() {
    check("PartialD;", "\u{2202}");
    check("Pcy;", "\u{41F}");
    check("Pfr;", "\u{1D513}");
    check("Phi;", "\u{3A6}");
    check("Pi;", "\u{3A0}");
    check("PlusMinus;", "\u{B1}");
    check("Poincareplane;", "\u{210C}");
    check("Popf;", "\u{2119}");
    check("Pr;", "\u{2ABB}");
    check("Precedes;", "\u{227A}");
    check("PrecedesEqual;", "\u{2AAF}");
    check("PrecedesSlantEqual;", "\u{227C}");
    check("PrecedesTilde;", "\u{227E}");
    check("Prime;", "\u{2033}");
    check("Product;", "\u{220F}");
    check("Proportion;", "\u{2237}");
    check("Proportional;", "\u{221D}");
    check("Pscr;", "\u{1D4AB}");
    check("Psi;", "\u{3A8}");
}

#[test]
fn names_in_capital_q() {
    check("QUOT", "\u{22}");
    check("QUOT;", "\u{22}");
    check("Qfr;", "\u{1D514}");
    check("Qopf;", "\u{211A}");
    check("Qscr;", "\u{1D4AC}");
}

#[test]
fn names_in_capital_r() {
    check("RBarr;", "\u{2910}");
    check("REG", "\u{AE}");
    check("REG;", "\u{AE}");
    check("Racute;", "\u{154}");
    check("Rang;", "\u{27EB}");
    check("Rarr;", "\u{21A0}");
    check("Rarrtl;", "\u{2916}");
    check("Rcaron;", "\u{158}");
    check("Rcedil;", "\u{156}");
    check("Rcy;", "\u{420}");
    check("Re;", "\u{211C}");
    check("ReverseElement;", "\u{220B}");
    check("ReverseEquilibrium;", "\u{21CB}");
    check("ReverseUpEquilibrium;", "\u{296F}");
    check("Rfr;", "\u{211C}");
    check("Rho;", "\u{3A1}");
    check("RightAngleBracket;", "\u{27E9}");
    check("RightArrow;", "\u{2192}");
    check("RightArrowBar;", "\u{21E5}");
    check("RightArrowLeftArrow;", "\u{21C4}");
    check("RightCeiling;", "\u{2309}");
    check("RightDoubleBracket;", "\u{27E7}");
    check("RightDownTeeVector;", "\u{295D}");
    check("RightDownVector;", "\u{21C2}");
    check("RightDownVectorBar;", "\u{2955}");
    check("RightFloor;", "\u{230B}");
    check("RightTee;", "\u{22A2}");
    check("RightTeeArrow;", "\u{21A6}");
    check("RightTeeVector;", "\u{295B}");
    check("RightTriangle;", "\u{22B3}");
    check("RightTriangleBar;", "\u{29D0}");
    check("RightTriangleEqual;", "\u{22B5}");
    check("RightUpDownVector;", "\u{294F}");
    check("RightUpTeeVector;", "\u{295C}");
    check("RightUpVector;", "\u{21BE}");
    check("RightUpVectorBar;", "\u{2954}");
    check("RightVector;", "\u{21C0}");
    check("RightVectorBar;", "\u{2953}");
    check("Rightarrow;", "\u{21D2}");
    check("Ropf;", "\u{211D}");
    check("RoundImplies;", "\u{2970}");
    check("Rrightarrow;", "\u{21DB}");
    check("Rscr;", "\u{211B}");
    check("Rsh;", "\u{21B1}");
    check("RuleDelayed;", "\u{29F4}");
}

#[test]
fn names_in_capital_s() {
    check("SHCHcy;", "\u{429}");
    check("SHcy;", "\u{428}");
    check("SOFTcy;", "\u{42C}");
    check("Sacute;", "\u{15A}");
    check("Sc;", "\u{2ABC}");
    check("Scaron;", "\u{160}");
    check("Scedil;", "\u{15E}");
    check("Scirc;", "\u{15C}");
    check("Scy;", "\u{421}");
    check("Sfr;", "\u{1D516}");
    check("ShortDownArrow;", "\u{2193}");
    check("ShortLeftArrow;", "\u{2190}");
    check("ShortRightArrow;", "\u{2192}");
    check("ShortUpArrow;", "\u{2191}");
    check("Sigma;", "\u{3A3}");
    check("SmallCircle;", "\u{2218}");
    check("Sopf;", "\u{1D54A}");
    check("Sqrt;", "\u{221A}");
    check("Square;", "\u{25A1}");
    check("SquareIntersection;", "\u{2293}");
    check("SquareSubset;", "\u{228F}");
    check("SquareSubsetEqual;", "\u{2291}");
    check("SquareSuperset;", "\u{2290}");
    check("SquareSupersetEqual;", "\u{2292}");
    check("SquareUnion;", "\u{2294}");
    check("Sscr;", "\u{1D4AE}");
    check("Star;", "\u{22C6}");
    check("Sub;", "\u{22D0}");
    check("Subset;", "\u{22D0}");
    check("SubsetEqual;", "\u{2286}");
    check("Succeeds;", "\u{227B}");
    check("SucceedsEqual;", "\u{2AB0}");
    check("SucceedsSlantEqual;", "\u{227D}");
    check("SucceedsTilde;", "\u{227F}");
    check("SuchThat;", "\u{220B}");
    check("Sum;", "\u{2211}");
    check("Sup;", "\u{22D1}");
    check("Superset;", "\u{2283}");
    check("SupersetEqual;", "\u{2287}");
    check("Supset;", "\u{22D1}");
}

#[test]
fn names_in_capital_t() {
    check("THORN", "\u{DE}");
    check("THORN;", "\u{DE}");
    check("TRADE;", "\u{2122}");
    check("TSHcy;", "\u{40B}");
    check("TScy;", "\u{426}");
    check("Tab;", "\u{9}");
    check("Tau;", "\u{3A4}");
    check("Tcaron;", "\u{164}");
    check("Tcedil;", "\u{162}");
    check("Tcy;", "\u{422}");
    check("Tfr;", "\u{1D517}");
    check("Therefore;", "\u{2234}");
    check("Theta;", "\u{398}");
    check("ThickSpace;", "\u{205F}\u{200A}");
    check("ThinSpace;", "\u{2009}");
    check("Tilde;", "\u{223C}");
    check("TildeEqual;", "\u{2243}");
    check("TildeFullEqual;", "\u{2245}");
    check("TildeTilde;", "\u{2248}");
    check("Topf;", "\u{1D54B}");
    check("TripleDot;", "\u{20DB}");
    check("Tscr;", "\u{1D4AF}");
    check("Tstrok;", "\u{166}");
}

#[test]
fn names_in_capital_u() {
    check("Uacute", "\u{DA}");
    check("Uacute;", "\u{DA}");
    check("Uarr;", "\u{219F}");
    check("Uarrocir;", "\u{2949}");
    check("Ubrcy;", "\u{40E}");
    check("Ubreve;", "\u{16C}");
    check("Ucirc", "\u{DB}");
    check("Ucirc;", "\u{DB}");
    check("Ucy;", "\u{423}");
    check("Udblac;", "\u{170}");
    check("Ufr;", "\u{1D518}");
    check("Ugrave", "\u{D9}");
    check("Ugrave;", "\u{D9}");
    check("Umacr;", "\u{16A}");
    check("UnderBar;", "\u{5F}");
    check("UnderBrace;", "\u{23DF}");
    check("UnderBracket;", "\u{23B5}");
    check("UnderParenthesis;", "\u{23DD}");
    check("Union;", "\u{22C3}");
    check("UnionPlus;", "\u{228E}");
    check("Uogon;", "\u{172}");
    check("Uopf;", "\u{1D54C}");
    check("UpArrow;", "\u{2191}");
    check("UpArrowBar;", "\u{2912}");
    check("UpArrowDownArrow;", "\u{21C5}");
    check("UpDownArrow;", "\u{2195}");
    check("UpEquilibrium;", "\u{296E}");
    check("UpTee;", "\u{22A5}");
    check("UpTeeArrow;", "\u{21A5}");
    check("Uparrow;", "\u{21D1}");
    check("Updownarrow;", "\u{21D5}");
    check("UpperLeftArrow;", "\u{2196}");
    check("UpperRightArrow;", "\u{2197}");
    check("Upsi;", "\u{3D2}");
    check("Upsilon;", "\u{3A5}");
    check("Uring;", "\u{16E}");
    check("Uscr;", "\u{1D4B0}");
    check("Utilde;", "\u{168}");
    check("Uuml", "\u{DC}");
    check("Uuml;", "\u{DC}");
}

#[test]
fn names_in_capital_v() {
    check("VDash;", "\u{22AB}");
    check("Vbar;", "\u{2AEB}");
    check("Vcy;", "\u{412}");
    check("Vdash;", "\u{22A9}");
    check("Vdashl;", "\u{2AE6}");
    check("Vee;", "\u{22C1}");
    check("Verbar;", "\u{2016}");
    check("Vert;", "\u{2016}");
    check("VerticalBar;", "\u{2223}");
    check("VerticalLine;", "\u{7C}");
    check("VerticalSeparator;", "\u{2758}");
    check("VerticalTilde;", "\u{2240}");
    check("VeryThinSpace;", "\u{200A}");
    check("Vfr;", "\u{1D519}");
    check("Vopf;", "\u{1D54D}");
    check("Vscr;", "\u{1D4B1}");
    check("Vvdash;", "\u{22AA}");
}

#[test]
fn names_in_capital_w() {
    check("Wcirc;", "\u{174}");
    check("Wedge;", "\u{22C0}");
    check("Wfr;", "\u{1D51A}");
    check("Wopf;", "\u{1D54E}");
    check("Wscr;", "\u{1D4B2}");
}

#[test]
fn names_in_capital_x() {
    check("Xfr;", "\u{1D51B}");
    check("Xi;", "\u{39E}");
    check("Xopf;", "\u{1D54F}");
    check("Xscr;", "\u{1D4B3}");
}

#[test]
fn names_in_capital_y() {
    check("YAcy;", "\u{42F}");
    check("YIcy;", "\u{407}");
    check("YUcy;", "\u{42E}");
    check("Yacute", "\u{DD}");
    check("Yacute;", "\u{DD}");
    check("Ycirc;", "\u{176}");
    check("Ycy;", "\u{42B}");
    check("Yfr;", "\u{1D51C}");
    check("Yopf;", "\u{1D550}");
    check("Yscr;", "\u{1D4B4}");
    check("Yuml;", "\u{178}");
}

#[test]
fn names_in_capital_z() {
    check("ZHcy;", "\u{416}");
    check("Zacute;", "\u{179}");
    check("Zcaron;", "\u{17D}");
    check("Zcy;", "\u{417}");
    check("Zdot;", "\u{17B}");
    check("ZeroWidthSpace;", "\u{200B}");
    check("Zeta;", "\u{396}");
    check("Zfr;", "\u{2128}");
    check("Zopf;", "\u{2124}");
    check("Zscr;", "\u{1D4B5}");
}

#[test]
fn names_in_small_a() {
    check("aacute", "\u{E1}");
    check("aacute;", "\u{E1}");
    check("abreve;", "\u{103}");
    check("ac;", "\u{223E}");
    check("acE;", "\u{223E}\u{333}");
    check("acd;", "\u{223F}");
    check("acirc", "\u{E2}");
    check("acirc;", "\u{E2}");
    check("acute", "\u{B4}");
    check("acute;", "\u{B4}");
    check("acy;", "\u{430}");
    check("aelig", "\u{E6}");
    check("aelig;", "\u{E6}");
    check("af;", "\u{2061}");
    check("afr;", "\u{1D51E}");
    check("agrave", "\u{E0}");
    check("agrave;", "\u{E0}");
    check("alefsym;", "\u{2135}");
    check("aleph;", "\u{2135}");
    check("alpha;", "\u{3B1}");
    check("amacr;", "\u{101}");
    check("amalg;", "\u{2A3F}");
    check("amp", "\u{26}");
    check("amp;", "\u{26}");
    check("and;", "\u{2227}");
    check("andand;", "\u{2A55}");
    check("andd;", "\u{2A5C}");
    check("andslope;", "\u{2A58}");
    check("andv;", "\u{2A5A}");
    check("ang;", "\u{2220}");
    check("ange;", "\u{29A4}");
    check("angle;", "\u{2220}");
    check("angmsd;", "\u{2221}");
    check("angmsdaa;", "\u{29A8}");
    check("angmsdab;", "\u{29A9}");
    check("angmsdac;", "\u{29AA}");
    check("angmsdad;", "\u{29AB}");
    check("angmsdae;", "\u{29AC}");
    check("angmsdaf;", "\u{29AD}");
    check("angmsdag;", "\u{29AE}");
    check("angmsdah;", "\u{29AF}");
    check("angrt;", "\u{221F}");
    check("angrtvb;", "\u{22BE}");
    check("angrtvbd;", "\u{299D}");
    check("angsph;", "\u{2222}");
    check("angst;", "\u{C5}");
    check("angzarr;", "\u{237C}");
    check("aogon;", "\u{105}");
    check("aopf;", "\u{1D552}");
    check("ap;", "\u{2248}");
    check("apE;", "\u{2A70}");
    check("apacir;", "\u{2A6F}");
    check("ape;", "\u{224A}");
    check("apid;", "\u{224B}");
    check("apos;", "\u{27}");
    check("approx;", "\u{2248}");
    check("approxeq;", "\u{224A}");
    check("aring", "\u{E5}");
    check("aring;", "\u{E5}");
    check("ascr;", "\u{1D4B6}");
    check("ast;", "\u{2A}");
    check("asymp;", "\u{2248}");
    check("asympeq;", "\u{224D}");
    check("atilde", "\u{E3}");
    check("atilde;", "\u{E3}");
    check("auml", "\u{E4}");
    check("auml;", "\u{E4}");
    check("awconint;", "\u{2233}");
    check("awint;", "\u{2A11}");
}

#[test]
fn names_in_small_b() {
    check("bNot;", "\u{2AED}");
    check("backcong;", "\u{224C}");
    check("backepsilon;", "\u{3F6}");
    check("backprime;", "\u{2035}");
    check("backsim;", "\u{223D}");
    check("backsimeq;", "\u{22CD}");
    check("barvee;", "\u{22BD}");
    check("barwed;", "\u{2305}");
    check("barwedge;", "\u{2305}");
    check("bbrk;", "\u{23B5}");
    check("bbrktbrk;", "\u{23B6}");
    check("bcong;", "\u{224C}");
    check("bcy;", "\u{431}");
    check("bdquo;", "\u{201E}");
    check("becaus;", "\u{2235}");
    check("because;", "\u{2235}");
    check("bemptyv;", "\u{29B0}");
    check("bepsi;", "\u{3F6}");
    check("bernou;", "\u{212C}");
    check("beta;", "\u{3B2}");
    check("beth;", "\u{2136}");
    check("between;", "\u{226C}");
    check("bfr;", "\u{1D51F}");
    check("bigcap;", "\u{22C2}");
    check("bigcirc;", "\u{25EF}");
    check("bigcup;", "\u{22C3}");
    check("bigodot;", "\u{2A00}");
    check("bigoplus;", "\u{2A01}");
    check("bigotimes;", "\u{2A02}");
    check("bigsqcup;", "\u{2A06}");
    check("bigstar;", "\u{2605}");
    check("bigtriangledown;", "\u{25BD}");
    check("bigtriangleup;", "\u{25B3}");
    check("biguplus;", "\u{2A04}");
    check("bigvee;", "\u{22C1}");
    check("bigwedge;", "\u{22C0}");
    check("bkarow;", "\u{290D}");
    check("blacklozenge;", "\u{29EB}");
    check("blacksquare;", "\u{25AA}");
    check("blacktriangle;", "\u{25B4}");
    check("blacktriangledown;", "\u{25BE}");
    check("blacktriangleleft;", "\u{25C2}");
    check("blacktriangleright;", "\u{25B8}");
    check("blank;", "\u{2423}");
    check("blk12;", "\u{2592}");
    check("blk14;", "\u{2591}");
    check("blk34;", "\u{2593}");
    check("block;", "\u{2588}");
    check("bne;", "\u{3D}\u{20E5}");
    check("bnequiv;", "\u{2261}\u{20E5}");
    check("bnot;", "\u{2310}");
    check("bopf;", "\u{1D553}");
    check("bot;", "\u{22A5}");
    check("bottom;", "\u{22A5}");
    check("bowtie;", "\u{22C8}");
    check("boxDL;", "\u{2557}");
    check("boxDR;", "\u{2554}");
    check("boxDl;", "\u{2556}");
    check("boxDr;", "\u{2553}");
    check("boxH;", "\u{2550}");
    check("boxHD;", "\u{2566}");
    check("boxHU;", "\u{2569}");
    check("boxHd;", "\u{2564}");
    check("boxHu;", "\u{2567}");
    check("boxUL;", "\u{255D}");
    check("boxUR;", "\u{255A}");
    check("boxUl;", "\u{255C}");
    check("boxUr;", "\u{2559}");
    check("boxV;", "\u{2551}");
    check("boxVH;", "\u{256C}");
    check("boxVL;", "\u{2563}");
    check("boxVR;", "\u{2560}");
    check("boxVh;", "\u{256B}");
    check("boxVl;", "\u{2562}");
    check("boxVr;", "\u{255F}");
    check("boxbox;", "\u{29C9}");
    check("boxdL;", "\u{2555}");
    check("boxdR;", "\u{2552}");
    check("boxdl;", "\u{2510}");
    check("boxdr;", "\u{250C}");
    check("boxh;", "\u{2500}");
    check("boxhD;", "\u{2565}");
    check("boxhU;", "\u{2568}");
    check("boxhd;", "\u{252C}");
    check("boxhu;", "\u{2534}");
    check("boxminus;", "\u{229F}");
    check("boxplus;", "\u{229E}");
    check("boxtimes;", "\u{22A0}");
    check("boxuL;", "\u{255B}");
    check("boxuR;", "\u{2558}");
    check("boxul;", "\u{2518}");
    check("boxur;", "\u{2514}");
    check("boxv;", "\u{2502}");
    check("boxvH;", "\u{256A}");
    check("boxvL;", "\u{2561}");
    check("boxvR;", "\u{255E}");
    check("boxvh;", "\u{253C}");
    check("boxvl;", "\u{2524}");
    check("boxvr;", "\u{251C}");
    check("bprime;", "\u{2035}");
    check("breve;", "\u{2D8}");
    check("brvbar", "\u{A6}");
    check("brvbar;", "\u{A6}");
    check("bscr;", "\u{1D4B7}");
    check("bsemi;", "\u{204F}");
    check("bsim;", "\u{223D}");
    check("bsime;", "\u{22CD}");
    check("bsol;", "\u{5C}");
    check("bsolb;", "\u{29C5}");
    check("bsolhsub;", "\u{27C8}");
    check("bull;", "\u{2022}");
    check("bullet;", "\u{2022}");
    check("bump;", "\u{224E}");
    check("bumpE;", "\u{2AAE}");
    check("bumpe;", "\u{224F}");
    check("bumpeq;", "\u{224F}");
}

#[test]
fn names_in_small_c() {
    check("cacute;", "\u{107}");
    check("cap;", "\u{2229}");
    check("capand;", "\u{2A44}");
    check("capbrcup;", "\u{2A49}");
    check("capcap;", "\u{2A4B}");
    check("capcup;", "\u{2A47}");
    check("capdot;", "\u{2A40}");
    check("caps;", "\u{2229}\u{FE00}");
    check("caret;", "\u{2041}");
    check("caron;", "\u{2C7}");
    check("ccaps;", "\u{2A4D}");
    check("ccaron;", "\u{10D}");
    check("ccedil", "\u{E7}");
    check("ccedil;", "\u{E7}");
    check("ccirc;", "\u{109}");
    check("ccups;", "\u{2A4C}");
    check("ccupssm;", "\u{2A50}");
    check("cdot;", "\u{10B}");
    check("cedil", "\u{B8}");
    check("cedil;", "\u{B8}");
    check("cemptyv;", "\u{29B2}");
    check("cent", "\u{A2}");
    check("cent;", "\u{A2}");
    check("centerdot;", "\u{B7}");
    check("cfr;", "\u{1D520}");
    check("chcy;", "\u{447}");
    check("check;", "\u{2713}");
    check("checkmark;", "\u{2713}");
    check("chi;", "\u{3C7}");
    check("cir;", "\u{25CB}");
    check("cirE;", "\u{29C3}");
    check("circ;", "\u{2C6}");
    check("circeq;", "\u{2257}");
    check("circlearrowleft;", "\u{21BA}");
    check("circlearrowright;", "\u{21BB}");
    check("circledR;", "\u{AE}");
    check("circledS;", "\u{24C8}");
    check("circledast;", "\u{229B}");
    check("circledcirc;", "\u{229A}");
    check("circleddash;", "\u{229D}");
    check("cire;", "\u{2257}");
    check("cirfnint;", "\u{2A10}");
    check("cirmid;", "\u{2AEF}");
    check("cirscir;", "\u{29C2}");
    check("clubs;", "\u{2663}");
    check("clubsuit;", "\u{2663}");
    check("colon;", "\u{3A}");
    check("colone;", "\u{2254}");
    check("coloneq;", "\u{2254}");
    check("comma;", "\u{2C}");
    check("commat;", "\u{40}");
    check("comp;", "\u{2201}");
    check("compfn;", "\u{2218}");
    check("complement;", "\u{2201}");
    check("complexes;", "\u{2102}");
    check("cong;", "\u{2245}");
    check("congdot;", "\u{2A6D}");
    check("conint;", "\u{222E}");
    check("copf;", "\u{1D554}");
    check("coprod;", "\u{2210}");
    check("copy", "\u{A9}");
    check("copy;", "\u{A9}");
    check("copysr;", "\u{2117}");
    check("crarr;", "\u{21B5}");
    check("cross;", "\u{2717}");
    check("cscr;", "\u{1D4B8}");
    check("csub;", "\u{2ACF}");
    check("csube;", "\u{2AD1}");
    check("csup;", "\u{2AD0}");
    check("csupe;", "\u{2AD2}");
    check("ctdot;", "\u{22EF}");
    check("cudarrl;", "\u{2938}");
    check("cudarrr;", "\u{2935}");
    check("cuepr;", "\u{22DE}");
    check("cuesc;", "\u{22DF}");
    check("cularr;", "\u{21B6}");
    check("cularrp;", "\u{293D}");
    check("cup;", "\u{222A}");
    check("cupbrcap;", "\u{2A48}");
    check("cupcap;", "\u{2A46}");
    check("cupcup;", "\u{2A4A}");
    check("cupdot;", "\u{228D}");
    check("cupor;", "\u{2A45}");
    check("cups;", "\u{222A}\u{FE00}");
    check("curarr;", "\u{21B7}");
    check("curarrm;", "\u{293C}");
    check("curlyeqprec;", "\u{22DE}");
    check("curlyeqsucc;", "\u{22DF}");
    check("curlyvee;", "\u{22CE}");
    check("curlywedge;", "\u{22CF}");
    check("curren", "\u{A4}");
    check("curren;", "\u{A4}");
    check("curvearrowleft;", "\u{21B6}");
    check("curvearrowright;", "\u{21B7}");
    check("cuvee;", "\u{22CE}");
    check("cuwed;", "\u{22CF}");
    check("cwconint;", "\u{2232}");
    check("cwint;", "\u{2231}");
    check("cylcty;", "\u{232D}");
}

#[test]
fn names_in_small_d() {
    check("dArr;", "\u{21D3}");
    check("dHar;", "\u{2965}");
    check("dagger;", "\u{2020}");
    check("daleth;", "\u{2138}");
    check("darr;", "\u{2193}");
    check("dash;", "\u{2010}");
    check("dashv;", "\u{22A3}");
    check("dbkarow;", "\u{290F}");
    check("dblac;", "\u{2DD}");
    check("dcaron;", "\u{10F}");
    check("dcy;", "\u{434}");
    check("dd;", "\u{2146}");
    check("ddagger;", "\u{2021}");
    check("ddarr;", "\u{21CA}");
    check("ddotseq;", "\u{2A77}");
    check("deg", "\u{B0}");
    check("deg;", "\u{B0}");
    check("delta;", "\u{3B4}");
    check("demptyv;", "\u{29B1}");
    check("dfisht;", "\u{297F}");
    check("dfr;", "\u{1D521}");
    check("dharl;", "\u{21C3}");
    check("dharr;", "\u{21C2}");
    check("diam;", "\u{22C4}");
    check("diamond;", "\u{22C4}");
    check("diamondsuit;", "\u{2666}");
    check("diams;", "\u{2666}");
    check("die;", "\u{A8}");
    check("digamma;", "\u{3DD}");
    check("disin;", "\u{22F2}");
    check("div;", "\u{F7}");
    check("divide", "\u{F7}");
    check("divide;", "\u{F7}");
    check("divideontimes;", "\u{22C7}");
    check("divonx;", "\u{22C7}");
    check("djcy;", "\u{452}");
    check("dlcorn;", "\u{231E}");
    check("dlcrop;", "\u{230D}");
    check("dollar;", "\u{24}");
    check("dopf;", "\u{1D555}");
    check("dot;", "\u{2D9}");
    check("doteq;", "\u{2250}");
    check("doteqdot;", "\u{2251}");
    check("dotminus;", "\u{2238}");
    check("dotplus;", "\u{2214}");
    check("dotsquare;", "\u{22A1}");
    check("doublebarwedge;", "\u{2306}");
    check("downarrow;", "\u{2193}");
    check("downdownarrows;", "\u{21CA}");
    check("downharpoonleft;", "\u{21C3}");
    check("downharpoonright;", "\u{21C2}");
    check("drbkarow;", "\u{2910}");
    check("drcorn;", "\u{231F}");
    check("drcrop;", "\u{230C}");
    check("dscr;", "\u{1D4B9}");
    check("dscy;", "\u{455}");
    check("dsol;", "\u{29F6}");
    check("dstrok;", "\u{111}");
    check("dtdot;", "\u{22F1}");
    check("dtri;", "\u{25BF}");
    check("dtrif;", "\u{25BE}");
    check("duarr;", "\u{21F5}");
    check("duhar;", "\u{296F}");
    check("dwangle;", "\u{29A6}");
    check("dzcy;", "\u{45F}");
    check("dzigrarr;", "\u{27FF}");
}

#[test]
fn names_in_small_e() {
    check("eDDot;", "\u{2A77}");
    check("eDot;", "\u{2251}");
    check("eacute", "\u{E9}");
    check("eacute;", "\u{E9}");
    check("easter;", "\u{2A6E}");
    check("ecaron;", "\u{11B}");
    check("ecir;", "\u{2256}");
    check("ecirc", "\u{EA}");
    check("ecirc;", "\u{EA}");
    check("ecolon;", "\u{2255}");
    check("ecy;", "\u{44D}");
    check("edot;", "\u{117}");
    check("ee;", "\u{2147}");
    check("efDot;", "\u{2252}");
    check("efr;", "\u{1D522}");
    check("eg;", "\u{2A9A}");
    check("egrave", "\u{E8}");
    check("egrave;", "\u{E8}");
    check("egs;", "\u{2A96}");
    check("egsdot;", "\u{2A98}");
    check("el;", "\u{2A99}");
    check("elinters;", "\u{23E7}");
    check("ell;", "\u{2113}");
    check("els;", "\u{2A95}");
    check("elsdot;", "\u{2A97}");
    check("emacr;", "\u{113}");
    check("empty;", "\u{2205}");
    check("emptyset;", "\u{2205}");
    check("emptyv;", "\u{2205}");
    check("emsp13;", "\u{2004}");
    check("emsp14;", "\u{2005}");
    check("emsp;", "\u{2003}");
    check("eng;", "\u{14B}");
    check("ensp;", "\u{2002}");
    check("eogon;", "\u{119}");
    check("eopf;", "\u{1D556}");
    check("epar;", "\u{22D5}");
    check("eparsl;", "\u{29E3}");
    check("eplus;", "\u{2A71}");
    check("epsi;", "\u{3B5}");
    check("epsilon;", "\u{3B5}");
    check("epsiv;", "\u{3F5}");
    check("eqcirc;", "\u{2256}");
    check("eqcolon;", "\u{2255}");
    check("eqsim;", "\u{2242}");
    check("eqslantgtr;", "\u{2A96}");
    check("eqslantless;", "\u{2A95}");
    check("equals;", "\u{3D}");
    check("equest;", "\u{225F}");
    check("equiv;", "\u{2261}");
    check("equivDD;", "\u{2A78}");
    check("eqvparsl;", "\u{29E5}");
    check("erDot;", "\u{2253}");
    check("erarr;", "\u{2971}");
    check("escr;", "\u{212F}");
    check("esdot;", "\u{2250}");
    check("esim;", "\u{2242}");
    check("eta;", "\u{3B7}");
    check("eth", "\u{F0}");
    check("eth;", "\u{F0}");
    check("euml", "\u{EB}");
    check("euml;", "\u{EB}");
    check("euro;", "\u{20AC}");
    check("excl;", "\u{21}");
    check("exist;", "\u{2203}");
    check("expectation;", "\u{2130}");
    check("exponentiale;", "\u{2147}");
}

#[test]
fn names_in_small_f() {
    check("fallingdotseq;", "\u{2252}");
    check("fcy;", "\u{444}");
    check("female;", "\u{2640}");
    check("ffilig;", "\u{FB03}");
    check("fflig;", "\u{FB00}");
    check("ffllig;", "\u{FB04}");
    check("ffr;", "\u{1D523}");
    check("filig;", "\u{FB01}");
    check("fjlig;", "\u{66}\u{6A}");
    check("flat;", "\u{266D}");
    check("fllig;", "\u{FB02}");
    check("fltns;", "\u{25B1}");
    check("fnof;", "\u{192}");
    check("fopf;", "\u{1D557}");
    check("forall;", "\u{2200}");
    check("fork;", "\u{22D4}");
    check("forkv;", "\u{2AD9}");
    check("fpartint;", "\u{2A0D}");
    check("frac12", "\u{BD}");
    check("frac12;", "\u{BD}");
    check("frac13;", "\u{2153}");
    check("frac14", "\u{BC}");
    check("frac14;", "\u{BC}");
    check("frac15;", "\u{2155}");
    check("frac16;", "\u{2159}");
    check("frac18;", "\u{215B}");
    check("frac23;", "\u{2154}");
    check("frac25;", "\u{2156}");
    check("frac34", "\u{BE}");
    check("frac34;", "\u{BE}");
    check("frac35;", "\u{2157}");
    check("frac38;", "\u{215C}");
    check("frac45;", "\u{2158}");
    check("frac56;", "\u{215A}");
    check("frac58;", "\u{215D}");
    check("frac78;", "\u{215E}");
    check("frasl;", "\u{2044}");
    check("frown;", "\u{2322}");
    check("fscr;", "\u{1D4BB}");
}

#[test]
fn names_in_small_g() {
    check("gE;", "\u{2267}");
    check("gEl;", "\u{2A8C}");
    check("gacute;", "\u{1F5}");
    check("gamma;", "\u{3B3}");
    check("gammad;", "\u{3DD}");
    check("gap;", "\u{2A86}");
    check("gbreve;", "\u{11F}");
    check("gcirc;", "\u{11D}");
    check("gcy;", "\u{433}");
    check("gdot;", "\u{121}");
    check("ge;", "\u{2265}");
    check("gel;", "\u{22DB}");
    check("geq;", "\u{2265}");
    check("geqq;", "\u{2267}");
    check("geqslant;", "\u{2A7E}");
    check("ges;", "\u{2A7E}");
    check("gescc;", "\u{2AA9}");
    check("gesdot;", "\u{2A80}");
    check("gesdoto;", "\u{2A82}");
    check("gesdotol;", "\u{2A84}");
    check("gesl;", "\u{22DB}\u{FE00}");
    check("gesles;", "\u{2A94}");
    check("gfr;", "\u{1D524}");
    check("gg;", "\u{226B}");
    check("ggg;", "\u{22D9}");
    check("gimel;", "\u{2137}");
    check("gjcy;", "\u{453}");
    check("gl;", "\u{2277}");
    check("glE;", "\u{2A92}");
    check("gla;", "\u{2AA5}");
    check("glj;", "\u{2AA4}");
    check("gnE;", "\u{2269}");
    check("gnap;", "\u{2A8A}");
    check("gnapprox;", "\u{2A8A}");
    check("gne;", "\u{2A88}");
    check("gneq;", "\u{2A88}");
    check("gneqq;", "\u{2269}");
    check("gnsim;", "\u{22E7}");
    check("gopf;", "\u{1D558}");
    check("grave;", "\u{60}");
    check("gscr;", "\u{210A}");
    check("gsim;", "\u{2273}");
    check("gsime;", "\u{2A8E}");
    check("gsiml;", "\u{2A90}");
    check("gt", "\u{3E}");
    check("gt;", "\u{3E}");
    check("gtcc;", "\u{2AA7}");
    check("gtcir;", "\u{2A7A}");
    check("gtdot;", "\u{22D7}");
    check("gtlPar;", "\u{2995}");
    check("gtquest;", "\u{2A7C}");
    check("gtrapprox;", "\u{2A86}");
    check("gtrarr;", "\u{2978}");
    check("gtrdot;", "\u{22D7}");
    check("gtreqless;", "\u{22DB}");
    check("gtreqqless;", "\u{2A8C}");
    check("gtrless;", "\u{2277}");
    check("gtrsim;", "\u{2273}");
    check("gvertneqq;", "\u{2269}\u{FE00}");
    check("gvnE;", "\u{2269}\u{FE00}");
}

#[test]
fn names_in_small_h() {
    check("hArr;", "\u{21D4}");
    check("hairsp;", "\u{200A}");
    check("half;", "\u{BD}");
    check("hamilt;", "\u{210B}");
    check("hardcy;", "\u{44A}");
    check("harr;", "\u{2194}");
    check("harrcir;", "\u{2948}");
    check("harrw;", "\u{21AD}");
    check("hbar;", "\u{210F}");
    check("hcirc;", "\u{125}");
    check("hearts;", "\u{2665}");
    check("heartsuit;", "\u{2665}");
    check("hellip;", "\u{2026}");
    check("hercon;", "\u{22B9}");
    check("hfr;", "\u{1D525}");
    check("hksearow;", "\u{2925}");
    check("hkswarow;", "\u{2926}");
    check("hoarr;", "\u{21FF}");
    check("homtht;", "\u{223B}");
    check("hookleftarrow;", "\u{21A9}");
    check("hookrightarrow;", "\u{21AA}");
    check("hopf;", "\u{1D559}");
    check("horbar;", "\u{2015}");
    check("hscr;", "\u{1D4BD}");
    check("hslash;", "\u{210F}");
    check("hstrok;", "\u{127}");
    check("hybull;", "\u{2043}");
    check("hyphen;", "\u{2010}");
}

#[test]
fn names_in_small_i() {
    check("iacute", "\u{ED}");
    check("iacute;", "\u{ED}");
    check("ic;", "\u{2063}");
    check("icirc", "\u{EE}");
    check("icirc;", "\u{EE}");
    check("icy;", "\u{438}");
    check("iecy;", "\u{435}");
    check("iexcl", "\u{A1}");
    check("iexcl;", "\u{A1}");
    check("iff;", "\u{21D4}");
    check("ifr;", "\u{1D526}");
    check("igrave", "\u{EC}");
    check("igrave;", "\u{EC}");
    check("ii;", "\u{2148}");
    check("iiiint;", "\u{2A0C}");
    check("iiint;", "\u{222D}");
    check("iinfin;", "\u{29DC}");
    check("iiota;", "\u{2129}");
    check("ijlig;", "\u{133}");
    check("imacr;", "\u{12B}");
    check("image;", "\u{2111}");
    check("imagline;", "\u{2110}");
    check("imagpart;", "\u{2111}");
    check("imath;", "\u{131}");
    check("imof;", "\u{22B7}");
    check("imped;", "\u{1B5}");
    check("in;", "\u{2208}");
    check("incare;", "\u{2105}");
    check("infin;", "\u{221E}");
    check("infintie;", "\u{29DD}");
    check("inodot;", "\u{131}");
    check("int;", "\u{222B}");
    check("intcal;", "\u{22BA}");
    check("integers;", "\u{2124}");
    check("intercal;", "\u{22BA}");
    check("intlarhk;", "\u{2A17}");
    check("intprod;", "\u{2A3C}");
    check("iocy;", "\u{451}");
    check("iogon;", "\u{12F}");
    check("iopf;", "\u{1D55A}");
    check("iota;", "\u{3B9}");
    check("iprod;", "\u{2A3C}");
    check("iquest", "\u{BF}");
    check("iquest;", "\u{BF}");
    check("iscr;", "\u{1D4BE}");
    check("isin;", "\u{2208}");
    check("isinE;", "\u{22F9}");
    check("isindot;", "\u{22F5}");
    check("isins;", "\u{22F4}");
    check("isinsv;", "\u{22F3}");
    check("isinv;", "\u{2208}");
    check("it;", "\u{2062}");
    check("itilde;", "\u{129}");
    check("iukcy;", "\u{456}");
    check("iuml", "\u{EF}");
    check("iuml;", "\u{EF}");
}

#[test]
fn names_in_small_j() {
    check("jcirc;", "\u{135}");
    check("jcy;", "\u{439}");
    check("jfr;", "\u{1D527}");
    check("jmath;", "\u{237}");
    check("jopf;", "\u{1D55B}");
    check("jscr;", "\u{1D4BF}");
    check("jsercy;", "\u{458}");
    check("jukcy;", "\u{454}");
}

#[test]
fn names_in_small_k() {
    check("kappa;", "\u{3BA}");
    check("kappav;", "\u{3F0}");
    check("kcedil;", "\u{137}");
    check("kcy;", "\u{43A}");
    check("kfr;", "\u{1D528}");
    check("kgreen;", "\u{138}");
    check("khcy;", "\u{445}");
    check("kjcy;", "\u{45C}");
    check("kopf;", "\u{1D55C}");
    check("kscr;", "\u{1D4C0}");
}

#[test]
fn names_in_small_l() {
    check("lAarr;", "\u{21DA}");
    check("lArr;", "\u{21D0}");
    check("lAtail;", "\u{291B}");
    check("lBarr;", "\u{290E}");
    check("lE;", "\u{2266}");
    check("lEg;", "\u{2A8B}");
    check("lHar;", "\u{2962}");
    check("lacute;", "\u{13A}");
    check("laemptyv;", "\u{29B4}");
    check("lagran;", "\u{2112}");
    check("lambda;", "\u{3BB}");
    check("lang;", "\u{27E8}");
    check("langd;", "\u{2991}");
    check("langle;", "\u{27E8}");
    check("lap;", "\u{2A85}");
    check("laquo", "\u{AB}");
    check("laquo;", "\u{AB}");
    check("larr;", "\u{2190}");
    check("larrb;", "\u{21E4}");
    check("larrbfs;", "\u{291F}");
    check("larrfs;", "\u{291D}");
    check("larrhk;", "\u{21A9}");
    check("larrlp;", "\u{21AB}");
    check("larrpl;", "\u{2939}");
    check("larrsim;", "\u{2973}");
    check("larrtl;", "\u{21A2}");
    check("lat;", "\u{2AAB}");
    check("latail;", "\u{2919}");
    check("late;", "\u{2AAD}");
    check("lates;", "\u{2AAD}\u{FE00}");
    check("lbarr;", "\u{290C}");
    check("lbbrk;", "\u{2772}");
    check("lbrace;", "\u{7B}");
    check("lbrack;", "\u{5B}");
    check("lbrke;", "\u{298B}");
    check("lbrksld;", "\u{298F}");
    check("lbrkslu;", "\u{298D}");
    check("lcaron;", "\u{13E}");
    check("lcedil;", "\u{13C}");
    check("lceil;", "\u{2308}");
    check("lcub;", "\u{7B}");
    check("lcy;", "\u{43B}");
    check("ldca;", "\u{2936}");
    check("ldquo;", "\u{201C}");
    check("ldquor;", "\u{201E}");
    check("ldrdhar;", "\u{2967}");
    check("ldrushar;", "\u{294B}");
    check("ldsh;", "\u{21B2}");
    check("le;", "\u{2264}");
    check("leftarrow;", "\u{2190}");
    check("leftarrowtail;", "\u{21A2}");
    check("leftharpoondown;", "\u{21BD}");
    check("leftharpoonup;", "\u{21BC}");
    check("leftleftarrows;", "\u{21C7}");
    check("leftrightarrow;", "\u{2194}");
    check("leftrightarrows;", "\u{21C6}");
    check("leftrightharpoons;", "\u{21CB}");
    check("leftrightsquigarrow;", "\u{21AD}");
    check("leftthreetimes;", "\u{22CB}");
    check("leg;", "\u{22DA}");
    check("leq;", "\u{2264}");
    check("leqq;", "\u{2266}");
    check("leqslant;", "\u{2A7D}");
    check("les;", "\u{2A7D}");
    check("lescc;", "\u{2AA8}");
    check("lesdot;", "\u{2A7F}");
    check("lesdoto;", "\u{2A81}");
    check("lesdotor;", "\u{2A83}");
    check("lesg;", "\u{22DA}\u{FE00}");
    check("lesges;", "\u{2A93}");
    check("lessapprox;", "\u{2A85}");
    check("lessdot;", "\u{22D6}");
    check("lesseqgtr;", "\u{22DA}");
    check("lesseqqgtr;", "\u{2A8B}");
    check("lessgtr;", "\u{2276}");
    check("lesssim;", "\u{2272}");
    check("lfisht;", "\u{297C}");
    check("lfloor;", "\u{230A}");
    check("lfr;", "\u{1D529}");
    check("lg;", "\u{2276}");
    check("lgE;", "\u{2A91}");
    check("lhard;", "\u{21BD}");
    check("lharu;", "\u{21BC}");
    check("lharul;", "\u{296A}");
    check("lhblk;", "\u{2584}");
    check("ljcy;", "\u{459}");
    check("ll;", "\u{226A}");
    check("llarr;", "\u{21C7}");
    check("llcorner;", "\u{231E}");
    check("llhard;", "\u{296B}");
    check("lltri;", "\u{25FA}");
    check("lmidot;", "\u{140}");
    check("lmoust;", "\u{23B0}");
    check("lmoustache;", "\u{23B0}");
    check("lnE;", "\u{2268}");
    check("lnap;", "\u{2A89}");
    check("lnapprox;", "\u{2A89}");
    check("lne;", "\u{2A87}");
    check("lneq;", "\u{2A87}");
    check("lneqq;", "\u{2268}");
    check("lnsim;", "\u{22E6}");
    check("loang;", "\u{27EC}");
    check("loarr;", "\u{21FD}");
    check("lobrk;", "\u{27E6}");
    check("longleftarrow;", "\u{27F5}");
    check("longleftrightarrow;", "\u{27F7}");
    check("longmapsto;", "\u{27FC}");
    check("longrightarrow;", "\u{27F6}");
    check("looparrowleft;", "\u{21AB}");
    check("looparrowright;", "\u{21AC}");
    check("lopar;", "\u{2985}");
    check("lopf;", "\u{1D55D}");
    check("loplus;", "\u{2A2D}");
    check("lotimes;", "\u{2A34}");
    check("lowast;", "\u{2217}");
    check("lowbar;", "\u{5F}");
    check("loz;", "\u{25CA}");
    check("lozenge;", "\u{25CA}");
    check("lozf;", "\u{29EB}");
    check("lpar;", "\u{28}");
    check("lparlt;", "\u{2993}");
    check("lrarr;", "\u{21C6}");
    check("lrcorner;", "\u{231F}");
    check("lrhar;", "\u{21CB}");
    check("lrhard;", "\u{296D}");
    check("lrm;", "\u{200E}");
    check("lrtri;", "\u{22BF}");
    check("lsaquo;", "\u{2039}");
    check("lscr;", "\u{1D4C1}");
    check("lsh;", "\u{21B0}");
    check("lsim;", "\u{2272}");
    check("lsime;", "\u{2A8D}");
    check("lsimg;", "\u{2A8F}");
    check("lsqb;", "\u{5B}");
    check("lsquo;", "\u{2018}");
    check("lsquor;", "\u{201A}");
    check("lstrok;", "\u{142}");
    check("lt", "\u{3C}");
    check("lt;", "\u{3C}");
    check("ltcc;", "\u{2AA6}");
    check("ltcir;", "\u{2A79}");
    check("ltdot;", "\u{22D6}");
    check("lthree;", "\u{22CB}");
    check("ltimes;", "\u{22C9}");
    check("ltlarr;", "\u{2976}");
    check("ltquest;", "\u{2A7B}");
    check("ltrPar;", "\u{2996}");
    check("ltri;", "\u{25C3}");
    check("ltrie;", "\u{22B4}");
    check("ltrif;", "\u{25C2}");
    check("lurdshar;", "\u{294A}");
    check("luruhar;", "\u{2966}");
    check("lvertneqq;", "\u{2268}\u{FE00}");
    check("lvnE;", "\u{2268}\u{FE00}");
}

#[test]
fn names_in_small_m() {
    check("mDDot;", "\u{223A}");
    check("macr", "\u{AF}");
    check("macr;", "\u{AF}");
    check("male;", "\u{2642}");
    check("malt;", "\u{2720}");
    check("maltese;", "\u{2720}");
    check("map;", "\u{21A6}");
    check("mapsto;", "\u{21A6}");
    check("mapstodown;", "\u{21A7}");
    check("mapstoleft;", "\u{21A4}");
    check("mapstoup;", "\u{21A5}");
    check("marker;", "\u{25AE}");
    check("mcomma;", "\u{2A29}");
    check("mcy;", "\u{43C}");
    check("mdash;", "\u{2014}");
    check("measuredangle;", "\u{2221}");
    check("mfr;", "\u{1D52A}");
    check("mho;", "\u{2127}");
    check("micro", "\u{B5}");
    check("micro;", "\u{B5}");
    check("mid;", "\u{2223}");
    check("midast;", "\u{2A}");
    check("midcir;", "\u{2AF0}");
    check("middot", "\u{B7}");
    check("middot;", "\u{B7}");
    check("minus;", "\u{2212}");
    check("minusb;", "\u{229F}");
    check("minusd;", "\u{2238}");
    check("minusdu;", "\u{2A2A}");
    check("mlcp;", "\u{2ADB}");
    check("mldr;", "\u{2026}");
    check("mnplus;", "\u{2213}");
    check("models;", "\u{22A7}");
    check("mopf;", "\u{1D55E}");
    check("mp;", "\u{2213}");
    check("mscr;", "\u{1D4C2}");
    check("mstpos;", "\u{223E}");
    check("mu;", "\u{3BC}");
    check("multimap;", "\u{22B8}");
    check("mumap;", "\u{22B8}");
}

#[test]
fn names_in_small_n() {
    check("nGg;", "\u{22D9}\u{338}");
    check("nGt;", "\u{226B}\u{20D2}");
    check("nGtv;", "\u{226B}\u{338}");
    check("nLeftarrow;", "\u{21CD}");
    check("nLeftrightarrow;", "\u{21CE}");
    check("nLl;", "\u{22D8}\u{338}");
    check("nLt;", "\u{226A}\u{20D2}");
    check("nLtv;", "\u{226A}\u{338}");
    check("nRightarrow;", "\u{21CF}");
    check("nVDash;", "\u{22AF}");
    check("nVdash;", "\u{22AE}");
    check("nabla;", "\u{2207}");
    check("nacute;", "\u{144}");
    check("nang;", "\u{2220}\u{20D2}");
    check("nap;", "\u{2249}");
    check("napE;", "\u{2A70}\u{338}");
    check("napid;", "\u{224B}\u{338}");
    check("napos;", "\u{149}");
    check("napprox;", "\u{2249}");
    check("natur;", "\u{266E}");
    check("natural;", "\u{266E}");
    check("naturals;", "\u{2115}");
    check("nbsp", "\u{A0}");
    check("nbsp;", "\u{A0}");
    check("nbump;", "\u{224E}\u{338}");
    check("nbumpe;", "\u{224F}\u{338}");
    check("ncap;", "\u{2A43}");
    check("ncaron;", "\u{148}");
    check("ncedil;", "\u{146}");
    check("ncong;", "\u{2247}");
    check("ncongdot;", "\u{2A6D}\u{338}");
    check("ncup;", "\u{2A42}");
    check("ncy;", "\u{43D}");
    check("ndash;", "\u{2013}");
    check("ne;", "\u{2260}");
    check("neArr;", "\u{21D7}");
    check("nearhk;", "\u{2924}");
    check("nearr;", "\u{2197}");
    check("nearrow;", "\u{2197}");
    check("nedot;", "\u{2250}\u{338}");
    check("nequiv;", "\u{2262}");
    check("nesear;", "\u{2928}");
    check("nesim;", "\u{2242}\u{338}");
    check("nexist;", "\u{2204}");
    check("nexists;", "\u{2204}");
    check("nfr;", "\u{1D52B}");
    check("ngE;", "\u{2267}\u{338}");
    check("nge;", "\u{2271}");
    check("ngeq;", "\u{2271}");
    check("ngeqq;", "\u{2267}\u{338}");
    check("ngeqslant;", "\u{2A7E}\u{338}");
    check("nges;", "\u{2A7E}\u{338}");
    check("ngsim;", "\u{2275}");
    check("ngt;", "\u{226F}");
    check("ngtr;", "\u{226F}");
    check("nhArr;", "\u{21CE}");
    check("nharr;", "\u{21AE}");
    check("nhpar;", "\u{2AF2}");
    check("ni;", "\u{220B}");
    check("nis;", "\u{22FC}");
    check("nisd;", "\u{22FA}");
    check("niv;", "\u{220B}");
    check("njcy;", "\u{45A}");
    check("nlArr;", "\u{21CD}");
    check("nlE;", "\u{2266}\u{338}");
    check("nlarr;", "\u{219A}");
    check("nldr;", "\u{2025}");
    check("nle;", "\u{2270}");
    check("nleftarrow;", "\u{219A}");
    check("nleftrightarrow;", "\u{21AE}");
    check("nleq;", "\u{2270}");
    check("nleqq;", "\u{2266}\u{338}");
    check("nleqslant;", "\u{2A7D}\u{338}");
    check("nles;", "\u{2A7D}\u{338}");
    check("nless;", "\u{226E}");
    check("nlsim;", "\u{2274}");
    check("nlt;", "\u{226E}");
    check("nltri;", "\u{22EA}");
    check("nltrie;", "\u{22EC}");
    check("nmid;", "\u{2224}");
    check("nopf;", "\u{1D55F}");
    check("not", "\u{AC}");
    check("not;", "\u{AC}");
    check("notin;", "\u{2209}");
    check("notinE;", "\u{22F9}\u{338}");
    check("notindot;", "\u{22F5}\u{338}");
    check("notinva;", "\u{2209}");
    check("notinvb;", "\u{22F7}");
    check("notinvc;", "\u{22F6}");
    check("notni;", "\u{220C}");
    check("notniva;", "\u{220C}");
    check("notnivb;", "\u{22FE}");
    check("notnivc;", "\u{22FD}");
    check("npar;", "\u{2226}");
    check("nparallel;", "\u{2226}");
    check("nparsl;", "\u{2AFD}\u{20E5}");
    check("npart;", "\u{2202}\u{338}");
    check("npolint;", "\u{2A14}");
    check("npr;", "\u{2280}");
    check("nprcue;", "\u{22E0}");
    check("npre;", "\u{2AAF}\u{338}");
    check("nprec;", "\u{2280}");
    check("npreceq;", "\u{2AAF}\u{338}");
    check("nrArr;", "\u{21CF}");
    check("nrarr;", "\u{219B}");
    check("nrarrc;", "\u{2933}\u{338}");
    check("nrarrw;", "\u{219D}\u{338}");
    check("nrightarrow;", "\u{219B}");
    check("nrtri;", "\u{22EB}");
    check("nrtrie;", "\u{22ED}");
    check("nsc;", "\u{2281}");
    check("nsccue;", "\u{22E1}");
    check("nsce;", "\u{2AB0}\u{338}");
    check("nscr;", "\u{1D4C3}");
    check("nshortmid;", "\u{2224}");
    check("nshortparallel;", "\u{2226}");
    check("nsim;", "\u{2241}");
    check("nsime;", "\u{2244}");
    check("nsimeq;", "\u{2244}");
    check("nsmid;", "\u{2224}");
    check("nspar;", "\u{2226}");
    check("nsqsube;", "\u{22E2}");
    check("nsqsupe;", "\u{22E3}");
    check("nsub;", "\u{2284}");
    check("nsubE;", "\u{2AC5}\u{338}");
    check("nsube;", "\u{2288}");
    check("nsubset;", "\u{2282}\u{20D2}");
    check("nsubseteq;", "\u{2288}");
    check("nsubseteqq;", "\u{2AC5}\u{338}");
    check("nsucc;", "\u{2281}");
    check("nsucceq;", "\u{2AB0}\u{338}");
    check("nsup;", "\u{2285}");
    check("nsupE;", "\u{2AC6}\u{338}");
    check("nsupe;", "\u{2289}");
    check("nsupset;", "\u{2283}\u{20D2}");
    check("nsupseteq;", "\u{2289}");
    check("nsupseteqq;", "\u{2AC6}\u{338}");
    check("ntgl;", "\u{2279}");
    check("ntilde", "\u{F1}");
    check("ntilde;", "\u{F1}");
    check("ntlg;", "\u{2278}");
    check("ntriangleleft;", "\u{22EA}");
    check("ntrianglelefteq;", "\u{22EC}");
    check("ntriangleright;", "\u{22EB}");
    check("ntrianglerighteq;", "\u{22ED}");
    check("nu;", "\u{3BD}");
    check("num;", "\u{23}");
    check("numero;", "\u{2116}");
    check("numsp;", "\u{2007}");
    check("nvDash;", "\u{22AD}");
    check("nvHarr;", "\u{2904}");
    check("nvap;", "\u{224D}\u{20D2}");
    check("nvdash;", "\u{22AC}");
    check("nvge;", "\u{2265}\u{20D2}");
    check("nvgt;", "\u{3E}\u{20D2}");
    check("nvinfin;", "\u{29DE}");
    check("nvlArr;", "\u{2902}");
    check("nvle;", "\u{2264}\u{20D2}");
    check("nvlt;", "\u{3C}\u{20D2}");
    check("nvltrie;", "\u{22B4}\u{20D2}");
    check("nvrArr;", "\u{2903}");
    check("nvrtrie;", "\u{22B5}\u{20D2}");
    check("nvsim;", "\u{223C}\u{20D2}");
    check("nwArr;", "\u{21D6}");
    check("nwarhk;", "\u{2923}");
    check("nwarr;", "\u{2196}");
    check("nwarrow;", "\u{2196}");
    check("nwnear;", "\u{2927}");
}

#[test]
fn names_in_small_o() {
    check("oS;", "\u{24C8}");
    check("oacute", "\u{F3}");
    check("oacute;", "\u{F3}");
    check("oast;", "\u{229B}");
    check("ocir;", "\u{229A}");
    check("ocirc", "\u{F4}");
    check("ocirc;", "\u{F4}");
    check("ocy;", "\u{43E}");
    check("odash;", "\u{229D}");
    check("odblac;", "\u{151}");
    check("odiv;", "\u{2A38}");
    check("odot;", "\u{2299}");
    check("odsold;", "\u{29BC}");
    check("oelig;", "\u{153}");
    check("ofcir;", "\u{29BF}");
    check("ofr;", "\u{1D52C}");
    check("ogon;", "\u{2DB}");
    check("ograve", "\u{F2}");
    check("ograve;", "\u{F2}");
    check("ogt;", "\u{29C1}");
    check("ohbar;", "\u{29B5}");
    check("ohm;", "\u{3A9}");
    check("oint;", "\u{222E}");
    check("olarr;", "\u{21BA}");
    check("olcir;", "\u{29BE}");
    check("olcross;", "\u{29BB}");
    check("oline;", "\u{203E}");
    check("olt;", "\u{29C0}");
    check("omacr;", "\u{14D}");
    check("omega;", "\u{3C9}");
    check("omicron;", "\u{3BF}");
    check("omid;", "\u{29B6}");
    check("ominus;", "\u{2296}");
    check("oopf;", "\u{1D560}");
    check("opar;", "\u{29B7}");
    check("operp;", "\u{29B9}");
    check("oplus;", "\u{2295}");
    check("or;", "\u{2228}");
    check("orarr;", "\u{21BB}");
    check("ord;", "\u{2A5D}");
    check("order;", "\u{2134}");
    check("orderof;", "\u{2134}");
    check("ordf", "\u{AA}");
    check("ordf;", "\u{AA}");
    check("ordm", "\u{BA}");
    check("ordm;", "\u{BA}");
    check("origof;", "\u{22B6}");
    check("oror;", "\u{2A56}");
    check("orslope;", "\u{2A57}");
    check("orv;", "\u{2A5B}");
    check("oscr;", "\u{2134}");
    check("oslash", "\u{F8}");
    check("oslash;", "\u{F8}");
    check("osol;", "\u{2298}");
    check("otilde", "\u{F5}");
    check("otilde;", "\u{F5}");
    check("otimes;", "\u{2297}");
    check("otimesas;", "\u{2A36}");
    check("ouml", "\u{F6}");
    check("ouml;", "\u{F6}");
    check("ovbar;", "\u{233D}");
}

#[test]
fn names_in_small_p() {
    check("par;", "\u{2225}");
    check("para", "\u{B6}");
    check("para;", "\u{B6}");
    check("parallel;", "\u{2225}");
    check("parsim;", "\u{2AF3}");
    check("parsl;", "\u{2AFD}");
    check("part;", "\u{2202}");
    check("pcy;", "\u{43F}");
    check("percnt;", "\u{25}");
    check("period;", "\u{2E}");
    check("permil;", "\u{2030}");
    check("perp;", "\u{22A5}");
    check("pertenk;", "\u{2031}");
    check("pfr;", "\u{1D52D}");
    check("phi;", "\u{3C6}");
    check("phiv;", "\u{3D5}");
    check("phmmat;", "\u{2133}");
    check("phone;", "\u{260E}");
    check("pi;", "\u{3C0}");
    check("pitchfork;", "\u{22D4}");
    check("piv;", "\u{3D6}");
    check("planck;", "\u{210F}");
    check("planckh;", "\u{210E}");
    check("plankv;", "\u{210F}");
    check("plus;", "\u{2B}");
    check("plusacir;", "\u{2A23}");
    check("plusb;", "\u{229E}");
    check("pluscir;", "\u{2A22}");
    check("plusdo;", "\u{2214}");
    check("plusdu;", "\u{2A25}");
    check("pluse;", "\u{2A72}");
    check("plusmn", "\u{B1}");
    check("plusmn;", "\u{B1}");
    check("plussim;", "\u{2A26}");
    check("plustwo;", "\u{2A27}");
    check("pm;", "\u{B1}");
    check("pointint;", "\u{2A15}");
    check("popf;", "\u{1D561}");
    check("pound", "\u{A3}");
    check("pound;", "\u{A3}");
    check("pr;", "\u{227A}");
    check("prE;", "\u{2AB3}");
    check("prap;", "\u{2AB7}");
    check("prcue;", "\u{227C}");
    check("pre;", "\u{2AAF}");
    check("prec;", "\u{227A}");
    check("precapprox;", "\u{2AB7}");
    check("preccurlyeq;", "\u{227C}");
    check("preceq;", "\u{2AAF}");
    check("precnapprox;", "\u{2AB9}");
    check("precneqq;", "\u{2AB5}");
    check("precnsim;", "\u{22E8}");
    check("precsim;", "\u{227E}");
    check("prime;", "\u{2032}");
    check("primes;", "\u{2119}");
    check("prnE;", "\u{2AB5}");
    check("prnap;", "\u{2AB9}");
    check("prnsim;", "\u{22E8}");
    check("prod;", "\u{220F}");
    check("profalar;", "\u{232E}");
    check("profline;", "\u{2312}");
    check("profsurf;", "\u{2313}");
    check("prop;", "\u{221D}");
    check("propto;", "\u{221D}");
    check("prsim;", "\u{227E}");
    check("prurel;", "\u{22B0}");
    check("pscr;", "\u{1D4C5}");
    check("psi;", "\u{3C8}");
    check("puncsp;", "\u{2008}");
}

#[test]
fn names_in_small_q() {
    check("qfr;", "\u{1D52E}");
    check("qint;", "\u{2A0C}");
    check("qopf;", "\u{1D562}");
    check("qprime;", "\u{2057}");
    check("qscr;", "\u{1D4C6}");
    check("quaternions;", "\u{210D}");
    check("quatint;", "\u{2A16}");
    check("quest;", "\u{3F}");
    check("questeq;", "\u{225F}");
    check("quot", "\u{22}");
    check("quot;", "\u{22}");
}

#[test]
fn names_in_small_r() {
    check("rAarr;", "\u{21DB}");
    check("rArr;", "\u{21D2}");
    check("rAtail;", "\u{291C}");
    check("rBarr;", "\u{290F}");
    check("rHar;", "\u{2964}");
    check("race;", "\u{223D}\u{331}");
    check("racute;", "\u{155}");
    check("radic;", "\u{221A}");
    check("raemptyv;", "\u{29B3}");
    check("rang;", "\u{27E9}");
    check("rangd;", "\u{2992}");
    check("range;", "\u{29A5}");
    check("rangle;", "\u{27E9}");
    check("raquo", "\u{BB}");
    check("raquo;", "\u{BB}");
    check("rarr;", "\u{2192}");
    check("rarrap;", "\u{2975}");
    check("rarrb;", "\u{21E5}");
    check("rarrbfs;", "\u{2920}");
    check("rarrc;", "\u{2933}");
    check("rarrfs;", "\u{291E}");
    check("rarrhk;", "\u{21AA}");
    check("rarrlp;", "\u{21AC}");
    check("rarrpl;", "\u{2945}");
    check("rarrsim;", "\u{2974}");
    check("rarrtl;", "\u{21A3}");
    check("rarrw;", "\u{219D}");
    check("ratail;", "\u{291A}");
    check("ratio;", "\u{2236}");
    check("rationals;", "\u{211A}");
    check("rbarr;", "\u{290D}");
    check("rbbrk;", "\u{2773}");
    check("rbrace;", "\u{7D}");
    check("rbrack;", "\u{5D}");
    check("rbrke;", "\u{298C}");
    check("rbrksld;", "\u{298E}");
    check("rbrkslu;", "\u{2990}");
    check("rcaron;", "\u{159}");
    check("rcedil;", "\u{157}");
    check("rceil;", "\u{2309}");
    check("rcub;", "\u{7D}");
    check("rcy;", "\u{440}");
    check("rdca;", "\u{2937}");
    check("rdldhar;", "\u{2969}");
    check("rdquo;", "\u{201D}");
    check("rdquor;", "\u{201D}");
    check("rdsh;", "\u{21B3}");
    check("real;", "\u{211C}");
    check("realine;", "\u{211B}");
    check("realpart;", "\u{211C}");
    check("reals;", "\u{211D}");
    check("rect;", "\u{25AD}");
    check("reg", "\u{AE}");
    check("reg;", "\u{AE}");
    check("rfisht;", "\u{297D}");
    check("rfloor;", "\u{230B}");
    check("rfr;", "\u{1D52F}");
    check("rhard;", "\u{21C1}");
    check("rharu;", "\u{21C0}");
    check("rharul;", "\u{296C}");
    check("rho;", "\u{3C1}");
    check("rhov;", "\u{3F1}");
    check("rightarrow;", "\u{2192}");
    check("rightarrowtail;", "\u{21A3}");
    check("rightharpoondown;", "\u{21C1}");
    check("rightharpoonup;", "\u{21C0}");
    check("rightleftarrows;", "\u{21C4}");
    check("rightleftharpoons;", "\u{21CC}");
    check("rightrightarrows;", "\u{21C9}");
    check("rightsquigarrow;", "\u{219D}");
    check("rightthreetimes;", "\u{22CC}");
    check("ring;", "\u{2DA}");
    check("risingdotseq;", "\u{2253}");
    check("rlarr;", "\u{21C4}");
    check("rlhar;", "\u{21CC}");
    check("rlm;", "\u{200F}");
    check("rmoust;", "\u{23B1}");
    check("rmoustache;", "\u{23B1}");
    check("rnmid;", "\u{2AEE}");
    check("roang;", "\u{27ED}");
    check("roarr;", "\u{21FE}");
    check("robrk;", "\u{27E7}");
    check("ropar;", "\u{2986}");
    check("ropf;", "\u{1D563}");
    check("roplus;", "\u{2A2E}");
    check("rotimes;", "\u{2A35}");
    check("rpar;", "\u{29}");
    check("rpargt;", "\u{2994}");
    check("rppolint;", "\u{2A12}");
    check("rrarr;", "\u{21C9}");
    check("rsaquo;", "\u{203A}");
    check("rscr;", "\u{1D4C7}");
    check("rsh;", "\u{21B1}");
    check("rsqb;", "\u{5D}");
    check("rsquo;", "\u{2019}");
    check("rsquor;", "\u{2019}");
    check("rthree;", "\u{22CC}");
    check("rtimes;", "\u{22CA}");
    check("rtri;", "\u{25B9}");
    check("rtrie;", "\u{22B5}");
    check("rtrif;", "\u{25B8}");
    check("rtriltri;", "\u{29CE}");
    check("ruluhar;", "\u{2968}");
    check("rx;", "\u{211E}");
}

#[test]
fn names_in_small_s() {
    check("sacute;", "\u{15B}");
    check("sbquo;", "\u{201A}");
    check("sc;", "\u{227B}");
    check("scE;", "\u{2AB4}");
    check("scap;", "\u{2AB8}");
    check("scaron;", "\u{161}");
    check("sccue;", "\u{227D}");
    check("sce;", "\u{2AB0}");
    check("scedil;", "\u{15F}");
    check("scirc;", "\u{15D}");
    check("scnE;", "\u{2AB6}");
    check("scnap;", "\u{2ABA}");
    check("scnsim;", "\u{22E9}");
    check("scpolint;", "\u{2A13}");
    check("scsim;", "\u{227F}");
    check("scy;", "\u{441}");
    check("sdot;", "\u{22C5}");
    check("sdotb;", "\u{22A1}");
    check("sdote;", "\u{2A66}");
    check("seArr;", "\u{21D8}");
    check("searhk;", "\u{2925}");
    check("searr;", "\u{2198}");
    check("searrow;", "\u{2198}");
    check("sect", "\u{A7}");
    check("sect;", "\u{A7}");
    check("semi;", "\u{3B}");
    check("seswar;", "\u{2929}");
    check("setminus;", "\u{2216}");
    check("setmn;", "\u{2216}");
    check("sext;", "\u{2736}");
    check("sfr;", "\u{1D530}");
    check("sfrown;", "\u{2322}");
    check("sharp;", "\u{266F}");
    check("shchcy;", "\u{449}");
    check("shcy;", "\u{448}");
    check("shortmid;", "\u{2223}");
    check("shortparallel;", "\u{2225}");
    check("shy", "\u{AD}");
    check("shy;", "\u{AD}");
    check("sigma;", "\u{3C3}");
    check("sigmaf;", "\u{3C2}");
    check("sigmav;", "\u{3C2}");
    check("sim;", "\u{223C}");
    check("simdot;", "\u{2A6A}");
    check("sime;", "\u{2243}");
    check("simeq;", "\u{2243}");
    check("simg;", "\u{2A9E}");
    check("simgE;", "\u{2AA0}");
    check("siml;", "\u{2A9D}");
    check("simlE;", "\u{2A9F}");
    check("simne;", "\u{2246}");
    check("simplus;", "\u{2A24}");
    check("simrarr;", "\u{2972}");
    check("slarr;", "\u{2190}");
    check("smallsetminus;", "\u{2216}");
    check("smashp;", "\u{2A33}");
    check("smeparsl;", "\u{29E4}");
    check("smid;", "\u{2223}");
    check("smile;", "\u{2323}");
    check("smt;", "\u{2AAA}");
    check("smte;", "\u{2AAC}");
    check("smtes;", "\u{2AAC}\u{FE00}");
    check("softcy;", "\u{44C}");
    check("sol;", "\u{2F}");
    check("solb;", "\u{29C4}");
    check("solbar;", "\u{233F}");
    check("sopf;", "\u{1D564}");
    check("spades;", "\u{2660}");
    check("spadesuit;", "\u{2660}");
    check("spar;", "\u{2225}");
    check("sqcap;", "\u{2293}");
    check("sqcaps;", "\u{2293}\u{FE00}");
    check("sqcup;", "\u{2294}");
    check("sqcups;", "\u{2294}\u{FE00}");
    check("sqsub;", "\u{228F}");
    check("sqsube;", "\u{2291}");
    check("sqsubset;", "\u{228F}");
    check("sqsubseteq;", "\u{2291}");
    check("sqsup;", "\u{2290}");
    check("sqsupe;", "\u{2292}");
    check("sqsupset;", "\u{2290}");
    check("sqsupseteq;", "\u{2292}");
    check("squ;", "\u{25A1}");
    check("square;", "\u{25A1}");
    check("squarf;", "\u{25AA}");
    check("squf;", "\u{25AA}");
    check("srarr;", "\u{2192}");
    check("sscr;", "\u{1D4C8}");
    check("ssetmn;", "\u{2216}");
    check("ssmile;", "\u{2323}");
    check("sstarf;", "\u{22C6}");
    check("star;", "\u{2606}");
    check("starf;", "\u{2605}");
    check("straightepsilon;", "\u{3F5}");
    check("straightphi;", "\u{3D5}");
    check("strns;", "\u{AF}");
    check("sub;", "\u{2282}");
    check("subE;", "\u{2AC5}");
    check("subdot;", "\u{2ABD}");
    check("sube;", "\u{2286}");
    check("subedot;", "\u{2AC3}");
    check("submult;", "\u{2AC1}");
    check("subnE;", "\u{2ACB}");
    check("subne;", "\u{228A}");
    check("subplus;", "\u{2ABF}");
    check("subrarr;", "\u{2979}");
    check("subset;", "\u{2282}");
    check("subseteq;", "\u{2286}");
    check("subseteqq;", "\u{2AC5}");
    check("subsetneq;", "\u{228A}");
    check("subsetneqq;", "\u{2ACB}");
    check("subsim;", "\u{2AC7}");
    check("subsub;", "\u{2AD5}");
    check("subsup;", "\u{2AD3}");
    check("succ;", "\u{227B}");
    check("succapprox;", "\u{2AB8}");
    check("succcurlyeq;", "\u{227D}");
    check("succeq;", "\u{2AB0}");
    check("succnapprox;", "\u{2ABA}");
    check("succneqq;", "\u{2AB6}");
    check("succnsim;", "\u{22E9}");
    check("succsim;", "\u{227F}");
    check("sum;", "\u{2211}");
    check("sung;", "\u{266A}");
    check("sup1", "\u{B9}");
    check("sup1;", "\u{B9}");
    check("sup2", "\u{B2}");
    check("sup2;", "\u{B2}");
    check("sup3", "\u{B3}");
    check("sup3;", "\u{B3}");
    check("sup;", "\u{2283}");
    check("supE;", "\u{2AC6}");
    check("supdot;", "\u{2ABE}");
    check("supdsub;", "\u{2AD8}");
    check("supe;", "\u{2287}");
    check("supedot;", "\u{2AC4}");
    check("suphsol;", "\u{27C9}");
    check("suphsub;", "\u{2AD7}");
    check("suplarr;", "\u{297B}");
    check("supmult;", "\u{2AC2}");
    check("supnE;", "\u{2ACC}");
    check("supne;", "\u{228B}");
    check("supplus;", "\u{2AC0}");
    check("supset;", "\u{2283}");
    check("supseteq;", "\u{2287}");
    check("supseteqq;", "\u{2AC6}");
    check("supsetneq;", "\u{228B}");
    check("supsetneqq;", "\u{2ACC}");
    check("supsim;", "\u{2AC8}");
    check("supsub;", "\u{2AD4}");
    check("supsup;", "\u{2AD6}");
    check("swArr;", "\u{21D9}");
    check("swarhk;", "\u{2926}");
    check("swarr;", "\u{2199}");
    check("swarrow;", "\u{2199}");
    check("swnwar;", "\u{292A}");
    check("szlig", "\u{DF}");
    check("szlig;", "\u{DF}");
}

#[test]
fn names_in_small_t() {
    check("target;", "\u{2316}");
    check("tau;", "\u{3C4}");
    check("tbrk;", "\u{23B4}");
    check("tcaron;", "\u{165}");
    check("tcedil;", "\u{163}");
    check("tcy;", "\u{442}");
    check("tdot;", "\u{20DB}");
    check("telrec;", "\u{2315}");
    check("tfr;", "\u{1D531}");
    check("there4;", "\u{2234}");
    check("therefore;", "\u{2234}");
    check("theta;", "\u{3B8}");
    check("thetasym;", "\u{3D1}");
    check("thetav;", "\u{3D1}");
    check("thickapprox;", "\u{2248}");
    check("thicksim;", "\u{223C}");
    check("thinsp;", "\u{2009}");
    check("thkap;", "\u{2248}");
    check("thksim;", "\u{223C}");
    check("thorn", "\u{FE}");
    check("thorn;", "\u{FE}");
    check("tilde;", "\u{2DC}");
    check("times", "\u{D7}");
    check("times;", "\u{D7}");
    check("timesb;", "\u{22A0}");
    check("timesbar;", "\u{2A31}");
    check("timesd;", "\u{2A30}");
    check("tint;", "\u{222D}");
    check("toea;", "\u{2928}");
    check("top;", "\u{22A4}");
    check("topbot;", "\u{2336}");
    check("topcir;", "\u{2AF1}");
    check("topf;", "\u{1D565}");
    check("topfork;", "\u{2ADA}");
    check("tosa;", "\u{2929}");
    check("tprime;", "\u{2034}");
    check("trade;", "\u{2122}");
    check("triangle;", "\u{25B5}");
    check("triangledown;", "\u{25BF}");
    check("triangleleft;", "\u{25C3}");
    check("trianglelefteq;", "\u{22B4}");
    check("triangleq;", "\u{225C}");
    check("triangleright;", "\u{25B9}");
    check("trianglerighteq;", "\u{22B5}");
    check("tridot;", "\u{25EC}");
    check("trie;", "\u{225C}");
    check("triminus;", "\u{2A3A}");
    check("triplus;", "\u{2A39}");
    check("trisb;", "\u{29CD}");
    check("tritime;", "\u{2A3B}");
    check("trpezium;", "\u{23E2}");
    check("tscr;", "\u{1D4C9}");
    check("tscy;", "\u{446}");
    check("tshcy;", "\u{45B}");
    check("tstrok;", "\u{167}");
    check("twixt;", "\u{226C}");
    check("twoheadleftarrow;", "\u{219E}");
    check("twoheadrightarrow;", "\u{21A0}");
}

#[test]
fn names_in_small_u() {
    check("uArr;", "\u{21D1}");
    check("uHar;", "\u{2963}");
    check("uacute", "\u{FA}");
    check("uacute;", "\u{FA}");
    check("uarr;", "\u{2191}");
    check("ubrcy;", "\u{45E}");
    check("ubreve;", "\u{16D}");
    check("ucirc", "\u{FB}");
    check("ucirc;", "\u{FB}");
    check("ucy;", "\u{443}");
    check("udarr;", "\u{21C5}");
    check("udblac;", "\u{171}");
    check("udhar;", "\u{296E}");
    check("ufisht;", "\u{297E}");
    check("ufr;", "\u{1D532}");
    check("ugrave", "\u{F9}");
    check("ugrave;", "\u{F9}");
    check("uharl;", "\u{21BF}");
    check("uharr;", "\u{21BE}");
    check("uhblk;", "\u{2580}");
    check("ulcorn;", "\u{231C}");
    check("ulcorner;", "\u{231C}");
    check("ulcrop;", "\u{230F}");
    check("ultri;", "\u{25F8}");
    check("umacr;", "\u{16B}");
    check("uml", "\u{A8}");
    check("uml;", "\u{A8}");
    check("uogon;", "\u{173}");
    check("uopf;", "\u{1D566}");
    check("uparrow;", "\u{2191}");
    check("updownarrow;", "\u{2195}");
    check("upharpoonleft;", "\u{21BF}");
    check("upharpoonright;", "\u{21BE}");
    check("uplus;", "\u{228E}");
    check("upsi;", "\u{3C5}");
    check("upsih;", "\u{3D2}");
    check("upsilon;", "\u{3C5}");
    check("upuparrows;", "\u{21C8}");
    check("urcorn;", "\u{231D}");
    check("urcorner;", "\u{231D}");
    check("urcrop;", "\u{230E}");
    check("uring;", "\u{16F}");
    check("urtri;", "\u{25F9}");
    check("uscr;", "\u{1D4CA}");
    check("utdot;", "\u{22F0}");
    check("utilde;", "\u{169}");
    check("utri;", "\u{25B5}");
    check("utrif;", "\u{25B4}");
    check("uuarr;", "\u{21C8}");
    check("uuml", "\u{FC}");
    check("uuml;", "\u{FC}");
    check("uwangle;", "\u{29A7}");
}

#[test]
fn names_in_small_v() {
    check("vArr;", "\u{21D5}");
    check("vBar;", "\u{2AE8}");
    check("vBarv;", "\u{2AE9}");
    check("vDash;", "\u{22A8}");
    check("vangrt;", "\u{299C}");
    check("varepsilon;", "\u{3F5}");
    check("varkappa;", "\u{3F0}");
    check("varnothing;", "\u{2205}");
    check("varphi;", "\u{3D5}");
    check("varpi;", "\u{3D6}");
    check("varpropto;", "\u{221D}");
    check("varr;", "\u{2195}");
    check("varrho;", "\u{3F1}");
    check("varsigma;", "\u{3C2}");
    check("varsubsetneq;", "\u{228A}\u{FE00}");
    check("varsubsetneqq;", "\u{2ACB}\u{FE00}");
    check("varsupsetneq;", "\u{228B}\u{FE00}");
    check("varsupsetneqq;", "\u{2ACC}\u{FE00}");
    check("vartheta;", "\u{3D1}");
    check("vartriangleleft;", "\u{22B2}");
    check("vartriangleright;", "\u{22B3}");
    check("vcy;", "\u{432}");
    check("vdash;", "\u{22A2}");
    check("vee;", "\u{2228}");
    check("veebar;", "\u{22BB}");
    check("veeeq;", "\u{225A}");
    check("vellip;", "\u{22EE}");
    check("verbar;", "\u{7C}");
    check("vert;", "\u{7C}");
    check("vfr;", "\u{1D533}");
    check("vltri;", "\u{22B2}");
    check("vnsub;", "\u{2282}\u{20D2}");
    check("vnsup;", "\u{2283}\u{20D2}");
    check("vopf;", "\u{1D567}");
    check("vprop;", "\u{221D}");
    check("vrtri;", "\u{22B3}");
    check("vscr;", "\u{1D4CB}");
    check("vsubnE;", "\u{2ACB}\u{FE00}");
    check("vsubne;", "\u{228A}\u{FE00}");
    check("vsupnE;", "\u{2ACC}\u{FE00}");
    check("vsupne;", "\u{228B}\u{FE00}");
    check("vzigzag;", "\u{299A}");
}

#[test]
fn names_in_small_w() {
    check("wcirc;", "\u{175}");
    check("wedbar;", "\u{2A5F}");
    check("wedge;", "\u{2227}");
    check("wedgeq;", "\u{2259}");
    check("weierp;", "\u{2118}");
    check("wfr;", "\u{1D534}");
    check("wopf;", "\u{1D568}");
    check("wp;", "\u{2118}");
    check("wr;", "\u{2240}");
    check("wreath;", "\u{2240}");
    check("wscr;", "\u{1D4CC}");
}

#[test]
fn names_in_small_x() {
    check("xcap;", "\u{22C2}");
    check("xcirc;", "\u{25EF}");
    check("xcup;", "\u{22C3}");
    check("xdtri;", "\u{25BD}");
    check("xfr;", "\u{1D535}");
    check("xhArr;", "\u{27FA}");
    check("xharr;", "\u{27F7}");
    check("xi;", "\u{3BE}");
    check("xlArr;", "\u{27F8}");
    check("xlarr;", "\u{27F5}");
    check("xmap;", "\u{27FC}");
    check("xnis;", "\u{22FB}");
    check("xodot;", "\u{2A00}");
    check("xopf;", "\u{1D569}");
    check("xoplus;", "\u{2A01}");
    check("xotime;", "\u{2A02}");
    check("xrArr;", "\u{27F9}");
    check("xrarr;", "\u{27F6}");
    check("xscr;", "\u{1D4CD}");
    check("xsqcup;", "\u{2A06}");
    check("xuplus;", "\u{2A04}");
    check("xutri;", "\u{25B3}");
    check("xvee;", "\u{22C1}");
    check("xwedge;", "\u{22C0}");
}

#[test]
fn names_in_small_y() {
    check("yacute", "\u{FD}");
    check("yacute;", "\u{FD}");
    check("yacy;", "\u{44F}");
    check("ycirc;", "\u{177}");
    check("ycy;", "\u{44B}");
    check("yen", "\u{A5}");
    check("yen;", "\u{A5}");
    check("yfr;", "\u{1D536}");
    check("yicy;", "\u{457}");
    check("yopf;", "\u{1D56A}");
    check("yscr;", "\u{1D4CE}");
    check("yucy;", "\u{44E}");
    check("yuml", "\u{FF}");
    check("yuml;", "\u{FF}");
}

#[test]
fn names_in_small_z() {
    check("zacute;", "\u{17A}");
    check("zcaron;", "\u{17E}");
    check("zcy;", "\u{437}");
    check("zdot;", "\u{17C}");
    check("zeetrf;", "\u{2128}");
    check("zeta;", "\u{3B6}");
    check("zfr;", "\u{1D537}");
    check("zhcy;", "\u{436}");
    check("zigrarr;", "\u{21DD}");
    check("zopf;", "\u{1D56B}");
    check("zscr;", "\u{1D4CF}");
    check("zwj;", "\u{200D}");
    check("zwnj;", "\u{200C}");
}
