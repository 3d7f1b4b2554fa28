//! The country table of the payment processor.
//!
//! Shipping rates restrict address collection to an allow-list of
//! countries.  Internally a country is a small positive wire code; the
//! processor names the same country by its two-letter code.  This module
//! is the bidirectional translation table between the two, the full
//! supported-country set, and the assembly of an address-collection
//! allow-list from a shipping rate's configuration.  There is no logic
//! beyond lookup.

use vstd::prelude::*;

verus! {

/// How many countries the processor supports.
pub const COUNTRY_COUNT: i32 = 236;

/// The two-letter country code a wire code names, or `None` for a code
/// outside the table.
pub open spec fn spec_country_alpha2(code: i32) -> Option<(char, char)> {
    if code == 1 {
        Some(('A', 'C'))
    } else
    if code == 2 {
        Some(('A', 'D'))
    } else
    if code == 3 {
        Some(('A', 'E'))
    } else
    if code == 4 {
        Some(('A', 'F'))
    } else
    if code == 5 {
        Some(('A', 'G'))
    } else
    if code == 6 {
        Some(('A', 'I'))
    } else
    if code == 7 {
        Some(('A', 'L'))
    } else
    if code == 8 {
        Some(('A', 'M'))
    } else
    if code == 9 {
        Some(('A', 'O'))
    } else
    if code == 10 {
        Some(('A', 'Q'))
    } else
    if code == 11 {
        Some(('A', 'R'))
    } else
    if code == 12 {
        Some(('A', 'T'))
    } else
    if code == 13 {
        Some(('A', 'U'))
    } else
    if code == 14 {
        Some(('A', 'W'))
    } else
    if code == 15 {
        Some(('A', 'X'))
    } else
    if code == 16 {
        Some(('A', 'Z'))
    } else
    if code == 17 {
        Some(('B', 'A'))
    } else
    if code == 18 {
        Some(('B', 'B'))
    } else
    if code == 19 {
        Some(('B', 'D'))
    } else
    if code == 20 {
        Some(('B', 'E'))
    } else
    if code == 21 {
        Some(('B', 'F'))
    } else
    if code == 22 {
        Some(('B', 'G'))
    } else
    if code == 23 {
        Some(('B', 'H'))
    } else
    if code == 24 {
        Some(('B', 'I'))
    } else
    if code == 25 {
        Some(('B', 'J'))
    } else
    if code == 26 {
        Some(('B', 'L'))
    } else
    if code == 27 {
        Some(('B', 'M'))
    } else
    if code == 28 {
        Some(('B', 'N'))
    } else
    if code == 29 {
        Some(('B', 'O'))
    } else
    if code == 30 {
        Some(('B', 'Q'))
    } else
    if code == 31 {
        Some(('B', 'R'))
    } else
    if code == 32 {
        Some(('B', 'S'))
    } else
    if code == 33 {
        Some(('B', 'T'))
    } else
    if code == 34 {
        Some(('B', 'V'))
    } else
    if code == 35 {
        Some(('B', 'W'))
    } else
    if code == 36 {
        Some(('B', 'Y'))
    } else
    if code == 37 {
        Some(('B', 'Z'))
    } else
    if code == 38 {
        Some(('C', 'A'))
    } else
    if code == 39 {
        Some(('C', 'D'))
    } else
    if code == 40 {
        Some(('C', 'F'))
    } else
    if code == 41 {
        Some(('C', 'G'))
    } else
    if code == 42 {
        Some(('C', 'H'))
    } else
    if code == 43 {
        Some(('C', 'I'))
    } else
    if code == 44 {
        Some(('C', 'K'))
    } else
    if code == 45 {
        Some(('C', 'L'))
    } else
    if code == 46 {
        Some(('C', 'M'))
    } else
    if code == 47 {
        Some(('C', 'N'))
    } else
    if code == 48 {
        Some(('C', 'O'))
    } else
    if code == 49 {
        Some(('C', 'R'))
    } else
    if code == 50 {
        Some(('C', 'V'))
    } else
    if code == 51 {
        Some(('C', 'W'))
    } else
    if code == 52 {
        Some(('C', 'Y'))
    } else
    if code == 53 {
        Some(('C', 'Z'))
    } else
    if code == 54 {
        Some(('D', 'E'))
    } else
    if code == 55 {
        Some(('D', 'J'))
    } else
    if code == 56 {
        Some(('D', 'K'))
    } else
    if code == 57 {
        Some(('D', 'M'))
    } else
    if code == 58 {
        Some(('D', 'O'))
    } else
    if code == 59 {
        Some(('D', 'Z'))
    } else
    if code == 60 {
        Some(('E', 'C'))
    } else
    if code == 61 {
        Some(('E', 'E'))
    } else
    if code == 62 {
        Some(('E', 'G'))
    } else
    if code == 63 {
        Some(('E', 'H'))
    } else
    if code == 64 {
        Some(('E', 'R'))
    } else
    if code == 65 {
        Some(('E', 'S'))
    } else
    if code == 66 {
        Some(('E', 'T'))
    } else
    if code == 67 {
        Some(('F', 'I'))
    } else
    if code == 68 {
        Some(('F', 'J'))
    } else
    if code == 69 {
        Some(('F', 'K'))
    } else
    if code == 70 {
        Some(('F', 'O'))
    } else
    if code == 71 {
        Some(('F', 'R'))
    } else
    if code == 72 {
        Some(('G', 'A'))
    } else
    if code == 73 {
        Some(('G', 'B'))
    } else
    if code == 74 {
        Some(('G', 'D'))
    } else
    if code == 75 {
        Some(('G', 'E'))
    } else
    if code == 76 {
        Some(('G', 'F'))
    } else
    if code == 77 {
        Some(('G', 'G'))
    } else
    if code == 78 {
        Some(('G', 'H'))
    } else
    if code == 79 {
        Some(('G', 'I'))
    } else
    if code == 80 {
        Some(('G', 'L'))
    } else
    if code == 81 {
        Some(('G', 'M'))
    } else
    if code == 82 {
        Some(('G', 'N'))
    } else
    if code == 83 {
        Some(('G', 'P'))
    } else
    if code == 84 {
        Some(('G', 'Q'))
    } else
    if code == 85 {
        Some(('G', 'R'))
    } else
    if code == 86 {
        Some(('G', 'S'))
    } else
    if code == 87 {
        Some(('G', 'T'))
    } else
    if code == 88 {
        Some(('G', 'U'))
    } else
    if code == 89 {
        Some(('G', 'W'))
    } else
    if code == 90 {
        Some(('G', 'Y'))
    } else
    if code == 91 {
        Some(('H', 'K'))
    } else
    if code == 92 {
        Some(('H', 'N'))
    } else
    if code == 93 {
        Some(('H', 'R'))
    } else
    if code == 94 {
        Some(('H', 'T'))
    } else
    if code == 95 {
        Some(('H', 'U'))
    } else
    if code == 96 {
        Some(('I', 'D'))
    } else
    if code == 97 {
        Some(('I', 'E'))
    } else
    if code == 98 {
        Some(('I', 'L'))
    } else
    if code == 99 {
        Some(('I', 'M'))
    } else
    if code == 100 {
        Some(('I', 'N'))
    } else
    if code == 101 {
        Some(('I', 'O'))
    } else
    if code == 102 {
        Some(('I', 'Q'))
    } else
    if code == 103 {
        Some(('I', 'S'))
    } else
    if code == 104 {
        Some(('I', 'T'))
    } else
    if code == 105 {
        Some(('J', 'E'))
    } else
    if code == 106 {
        Some(('J', 'M'))
    } else
    if code == 107 {
        Some(('J', 'O'))
    } else
    if code == 108 {
        Some(('J', 'P'))
    } else
    if code == 109 {
        Some(('K', 'E'))
    } else
    if code == 110 {
        Some(('K', 'G'))
    } else
    if code == 111 {
        Some(('K', 'H'))
    } else
    if code == 112 {
        Some(('K', 'I'))
    } else
    if code == 113 {
        Some(('K', 'M'))
    } else
    if code == 114 {
        Some(('K', 'N'))
    } else
    if code == 115 {
        Some(('K', 'R'))
    } else
    if code == 116 {
        Some(('K', 'W'))
    } else
    if code == 117 {
        Some(('K', 'Y'))
    } else
    if code == 118 {
        Some(('L', 'A'))
    } else
    if code == 119 {
        Some(('L', 'B'))
    } else
    if code == 120 {
        Some(('L', 'C'))
    } else
    if code == 121 {
        Some(('L', 'I'))
    } else
    if code == 122 {
        Some(('L', 'K'))
    } else
    if code == 123 {
        Some(('L', 'R'))
    } else
    if code == 124 {
        Some(('L', 'S'))
    } else
    if code == 125 {
        Some(('L', 'T'))
    } else
    if code == 126 {
        Some(('L', 'U'))
    } else
    if code == 127 {
        Some(('L', 'V'))
    } else
    if code == 128 {
        Some(('L', 'Y'))
    } else
    if code == 129 {
        Some(('M', 'A'))
    } else
    if code == 130 {
        Some(('M', 'C'))
    } else
    if code == 131 {
        Some(('M', 'D'))
    } else
    if code == 132 {
        Some(('M', 'E'))
    } else
    if code == 133 {
        Some(('M', 'F'))
    } else
    if code == 134 {
        Some(('M', 'G'))
    } else
    if code == 135 {
        Some(('M', 'K'))
    } else
    if code == 136 {
        Some(('M', 'L'))
    } else
    if code == 137 {
        Some(('M', 'M'))
    } else
    if code == 138 {
        Some(('M', 'N'))
    } else
    if code == 139 {
        Some(('M', 'O'))
    } else
    if code == 140 {
        Some(('M', 'Q'))
    } else
    if code == 141 {
        Some(('M', 'R'))
    } else
    if code == 142 {
        Some(('M', 'S'))
    } else
    if code == 143 {
        Some(('M', 'T'))
    } else
    if code == 144 {
        Some(('M', 'U'))
    } else
    if code == 145 {
        Some(('M', 'V'))
    } else
    if code == 146 {
        Some(('M', 'W'))
    } else
    if code == 147 {
        Some(('M', 'X'))
    } else
    if code == 148 {
        Some(('M', 'Y'))
    } else
    if code == 149 {
        Some(('M', 'Z'))
    } else
    if code == 150 {
        Some(('N', 'A'))
    } else
    if code == 151 {
        Some(('N', 'C'))
    } else
    if code == 152 {
        Some(('N', 'E'))
    } else
    if code == 153 {
        Some(('N', 'G'))
    } else
    if code == 154 {
        Some(('N', 'I'))
    } else
    if code == 155 {
        Some(('N', 'L'))
    } else
    if code == 156 {
        Some(('N', 'O'))
    } else
    if code == 157 {
        Some(('N', 'P'))
    } else
    if code == 158 {
        Some(('N', 'R'))
    } else
    if code == 159 {
        Some(('N', 'U'))
    } else
    if code == 160 {
        Some(('N', 'Z'))
    } else
    if code == 161 {
        Some(('O', 'M'))
    } else
    if code == 162 {
        Some(('P', 'A'))
    } else
    if code == 163 {
        Some(('P', 'E'))
    } else
    if code == 164 {
        Some(('P', 'F'))
    } else
    if code == 165 {
        Some(('P', 'G'))
    } else
    if code == 166 {
        Some(('P', 'H'))
    } else
    if code == 167 {
        Some(('P', 'K'))
    } else
    if code == 168 {
        Some(('P', 'L'))
    } else
    if code == 169 {
        Some(('P', 'M'))
    } else
    if code == 170 {
        Some(('P', 'N'))
    } else
    if code == 171 {
        Some(('P', 'R'))
    } else
    if code == 172 {
        Some(('P', 'S'))
    } else
    if code == 173 {
        Some(('P', 'T'))
    } else
    if code == 174 {
        Some(('P', 'Y'))
    } else
    if code == 175 {
        Some(('Q', 'A'))
    } else
    if code == 176 {
        Some(('R', 'E'))
    } else
    if code == 177 {
        Some(('R', 'O'))
    } else
    if code == 178 {
        Some(('R', 'S'))
    } else
    if code == 179 {
        Some(('R', 'U'))
    } else
    if code == 180 {
        Some(('R', 'W'))
    } else
    if code == 181 {
        Some(('S', 'A'))
    } else
    if code == 182 {
        Some(('S', 'B'))
    } else
    if code == 183 {
        Some(('S', 'C'))
    } else
    if code == 184 {
        Some(('S', 'E'))
    } else
    if code == 185 {
        Some(('S', 'G'))
    } else
    if code == 186 {
        Some(('S', 'H'))
    } else
    if code == 187 {
        Some(('S', 'I'))
    } else
    if code == 188 {
        Some(('S', 'J'))
    } else
    if code == 189 {
        Some(('S', 'K'))
    } else
    if code == 190 {
        Some(('S', 'L'))
    } else
    if code == 191 {
        Some(('S', 'M'))
    } else
    if code == 192 {
        Some(('S', 'N'))
    } else
    if code == 193 {
        Some(('S', 'O'))
    } else
    if code == 194 {
        Some(('S', 'R'))
    } else
    if code == 195 {
        Some(('S', 'S'))
    } else
    if code == 196 {
        Some(('S', 'T'))
    } else
    if code == 197 {
        Some(('S', 'V'))
    } else
    if code == 198 {
        Some(('S', 'X'))
    } else
    if code == 199 {
        Some(('S', 'Z'))
    } else
    if code == 200 {
        Some(('T', 'A'))
    } else
    if code == 201 {
        Some(('T', 'C'))
    } else
    if code == 202 {
        Some(('T', 'D'))
    } else
    if code == 203 {
        Some(('T', 'F'))
    } else
    if code == 204 {
        Some(('T', 'G'))
    } else
    if code == 205 {
        Some(('T', 'H'))
    } else
    if code == 206 {
        Some(('T', 'J'))
    } else
    if code == 207 {
        Some(('T', 'K'))
    } else
    if code == 208 {
        Some(('T', 'L'))
    } else
    if code == 209 {
        Some(('T', 'M'))
    } else
    if code == 210 {
        Some(('T', 'N'))
    } else
    if code == 211 {
        Some(('T', 'O'))
    } else
    if code == 212 {
        Some(('T', 'R'))
    } else
    if code == 213 {
        Some(('T', 'T'))
    } else
    if code == 214 {
        Some(('T', 'V'))
    } else
    if code == 215 {
        Some(('T', 'W'))
    } else
    if code == 216 {
        Some(('T', 'Z'))
    } else
    if code == 217 {
        Some(('U', 'A'))
    } else
    if code == 218 {
        Some(('U', 'G'))
    } else
    if code == 219 {
        Some(('U', 'S'))
    } else
    if code == 220 {
        Some(('U', 'Y'))
    } else
    if code == 221 {
        Some(('U', 'Z'))
    } else
    if code == 222 {
        Some(('V', 'A'))
    } else
    if code == 223 {
        Some(('V', 'C'))
    } else
    if code == 224 {
        Some(('V', 'E'))
    } else
    if code == 225 {
        Some(('V', 'G'))
    } else
    if code == 226 {
        Some(('V', 'N'))
    } else
    if code == 227 {
        Some(('V', 'U'))
    } else
    if code == 228 {
        Some(('W', 'F'))
    } else
    if code == 229 {
        Some(('W', 'S'))
    } else
    if code == 230 {
        Some(('X', 'K'))
    } else
    if code == 231 {
        Some(('Y', 'E'))
    } else
    if code == 232 {
        Some(('Y', 'T'))
    } else
    if code == 233 {
        Some(('Z', 'A'))
    } else
    if code == 234 {
        Some(('Z', 'M'))
    } else
    if code == 235 {
        Some(('Z', 'W'))
    } else
    if code == 236 {
        Some(('Z', 'Z'))
    } else {
        None
    }
}

/// The wire code of a two-letter country code, or `None` for letters
/// the processor does not know.
pub open spec fn spec_country_code(c0: char, c1: char) -> Option<i32> {
    if c0 == 'A' && c1 == 'C' {
        Some(1)
    } else
    if c0 == 'A' && c1 == 'D' {
        Some(2)
    } else
    if c0 == 'A' && c1 == 'E' {
        Some(3)
    } else
    if c0 == 'A' && c1 == 'F' {
        Some(4)
    } else
    if c0 == 'A' && c1 == 'G' {
        Some(5)
    } else
    if c0 == 'A' && c1 == 'I' {
        Some(6)
    } else
    if c0 == 'A' && c1 == 'L' {
        Some(7)
    } else
    if c0 == 'A' && c1 == 'M' {
        Some(8)
    } else
    if c0 == 'A' && c1 == 'O' {
        Some(9)
    } else
    if c0 == 'A' && c1 == 'Q' {
        Some(10)
    } else
    if c0 == 'A' && c1 == 'R' {
        Some(11)
    } else
    if c0 == 'A' && c1 == 'T' {
        Some(12)
    } else
    if c0 == 'A' && c1 == 'U' {
        Some(13)
    } else
    if c0 == 'A' && c1 == 'W' {
        Some(14)
    } else
    if c0 == 'A' && c1 == 'X' {
        Some(15)
    } else
    if c0 == 'A' && c1 == 'Z' {
        Some(16)
    } else
    if c0 == 'B' && c1 == 'A' {
        Some(17)
    } else
    if c0 == 'B' && c1 == 'B' {
        Some(18)
    } else
    if c0 == 'B' && c1 == 'D' {
        Some(19)
    } else
    if c0 == 'B' && c1 == 'E' {
        Some(20)
    } else
    if c0 == 'B' && c1 == 'F' {
        Some(21)
    } else
    if c0 == 'B' && c1 == 'G' {
        Some(22)
    } else
    if c0 == 'B' && c1 == 'H' {
        Some(23)
    } else
    if c0 == 'B' && c1 == 'I' {
        Some(24)
    } else
    if c0 == 'B' && c1 == 'J' {
        Some(25)
    } else
    if c0 == 'B' && c1 == 'L' {
        Some(26)
    } else
    if c0 == 'B' && c1 == 'M' {
        Some(27)
    } else
    if c0 == 'B' && c1 == 'N' {
        Some(28)
    } else
    if c0 == 'B' && c1 == 'O' {
        Some(29)
    } else
    if c0 == 'B' && c1 == 'Q' {
        Some(30)
    } else
    if c0 == 'B' && c1 == 'R' {
        Some(31)
    } else
    if c0 == 'B' && c1 == 'S' {
        Some(32)
    } else
    if c0 == 'B' && c1 == 'T' {
        Some(33)
    } else
    if c0 == 'B' && c1 == 'V' {
        Some(34)
    } else
    if c0 == 'B' && c1 == 'W' {
        Some(35)
    } else
    if c0 == 'B' && c1 == 'Y' {
        Some(36)
    } else
    if c0 == 'B' && c1 == 'Z' {
        Some(37)
    } else
    if c0 == 'C' && c1 == 'A' {
        Some(38)
    } else
    if c0 == 'C' && c1 == 'D' {
        Some(39)
    } else
    if c0 == 'C' && c1 == 'F' {
        Some(40)
    } else
    if c0 == 'C' && c1 == 'G' {
        Some(41)
    } else
    if c0 == 'C' && c1 == 'H' {
        Some(42)
    } else
    if c0 == 'C' && c1 == 'I' {
        Some(43)
    } else
    if c0 == 'C' && c1 == 'K' {
        Some(44)
    } else
    if c0 == 'C' && c1 == 'L' {
        Some(45)
    } else
    if c0 == 'C' && c1 == 'M' {
        Some(46)
    } else
    if c0 == 'C' && c1 == 'N' {
        Some(47)
    } else
    if c0 == 'C' && c1 == 'O' {
        Some(48)
    } else
    if c0 == 'C' && c1 == 'R' {
        Some(49)
    } else
    if c0 == 'C' && c1 == 'V' {
        Some(50)
    } else
    if c0 == 'C' && c1 == 'W' {
        Some(51)
    } else
    if c0 == 'C' && c1 == 'Y' {
        Some(52)
    } else
    if c0 == 'C' && c1 == 'Z' {
        Some(53)
    } else
    if c0 == 'D' && c1 == 'E' {
        Some(54)
    } else
    if c0 == 'D' && c1 == 'J' {
        Some(55)
    } else
    if c0 == 'D' && c1 == 'K' {
        Some(56)
    } else
    if c0 == 'D' && c1 == 'M' {
        Some(57)
    } else
    if c0 == 'D' && c1 == 'O' {
        Some(58)
    } else
    if c0 == 'D' && c1 == 'Z' {
        Some(59)
    } else
    if c0 == 'E' && c1 == 'C' {
        Some(60)
    } else
    if c0 == 'E' && c1 == 'E' {
        Some(61)
    } else
    if c0 == 'E' && c1 == 'G' {
        Some(62)
    } else
    if c0 == 'E' && c1 == 'H' {
        Some(63)
    } else
    if c0 == 'E' && c1 == 'R' {
        Some(64)
    } else
    if c0 == 'E' && c1 == 'S' {
        Some(65)
    } else
    if c0 == 'E' && c1 == 'T' {
        Some(66)
    } else
    if c0 == 'F' && c1 == 'I' {
        Some(67)
    } else
    if c0 == 'F' && c1 == 'J' {
        Some(68)
    } else
    if c0 == 'F' && c1 == 'K' {
        Some(69)
    } else
    if c0 == 'F' && c1 == 'O' {
        Some(70)
    } else
    if c0 == 'F' && c1 == 'R' {
        Some(71)
    } else
    if c0 == 'G' && c1 == 'A' {
        Some(72)
    } else
    if c0 == 'G' && c1 == 'B' {
        Some(73)
    } else
    if c0 == 'G' && c1 == 'D' {
        Some(74)
    } else
    if c0 == 'G' && c1 == 'E' {
        Some(75)
    } else
    if c0 == 'G' && c1 == 'F' {
        Some(76)
    } else
    if c0 == 'G' && c1 == 'G' {
        Some(77)
    } else
    if c0 == 'G' && c1 == 'H' {
        Some(78)
    } else
    if c0 == 'G' && c1 == 'I' {
        Some(79)
    } else
    if c0 == 'G' && c1 == 'L' {
        Some(80)
    } else
    if c0 == 'G' && c1 == 'M' {
        Some(81)
    } else
    if c0 == 'G' && c1 == 'N' {
        Some(82)
    } else
    if c0 == 'G' && c1 == 'P' {
        Some(83)
    } else
    if c0 == 'G' && c1 == 'Q' {
        Some(84)
    } else
    if c0 == 'G' && c1 == 'R' {
        Some(85)
    } else
    if c0 == 'G' && c1 == 'S' {
        Some(86)
    } else
    if c0 == 'G' && c1 == 'T' {
        Some(87)
    } else
    if c0 == 'G' && c1 == 'U' {
        Some(88)
    } else
    if c0 == 'G' && c1 == 'W' {
        Some(89)
    } else
    if c0 == 'G' && c1 == 'Y' {
        Some(90)
    } else
    if c0 == 'H' && c1 == 'K' {
        Some(91)
    } else
    if c0 == 'H' && c1 == 'N' {
        Some(92)
    } else
    if c0 == 'H' && c1 == 'R' {
        Some(93)
    } else
    if c0 == 'H' && c1 == 'T' {
        Some(94)
    } else
    if c0 == 'H' && c1 == 'U' {
        Some(95)
    } else
    if c0 == 'I' && c1 == 'D' {
        Some(96)
    } else
    if c0 == 'I' && c1 == 'E' {
        Some(97)
    } else
    if c0 == 'I' && c1 == 'L' {
        Some(98)
    } else
    if c0 == 'I' && c1 == 'M' {
        Some(99)
    } else
    if c0 == 'I' && c1 == 'N' {
        Some(100)
    } else
    if c0 == 'I' && c1 == 'O' {
        Some(101)
    } else
    if c0 == 'I' && c1 == 'Q' {
        Some(102)
    } else
    if c0 == 'I' && c1 == 'S' {
        Some(103)
    } else
    if c0 == 'I' && c1 == 'T' {
        Some(104)
    } else
    if c0 == 'J' && c1 == 'E' {
        Some(105)
    } else
    if c0 == 'J' && c1 == 'M' {
        Some(106)
    } else
    if c0 == 'J' && c1 == 'O' {
        Some(107)
    } else
    if c0 == 'J' && c1 == 'P' {
        Some(108)
    } else
    if c0 == 'K' && c1 == 'E' {
        Some(109)
    } else
    if c0 == 'K' && c1 == 'G' {
        Some(110)
    } else
    if c0 == 'K' && c1 == 'H' {
        Some(111)
    } else
    if c0 == 'K' && c1 == 'I' {
        Some(112)
    } else
    if c0 == 'K' && c1 == 'M' {
        Some(113)
    } else
    if c0 == 'K' && c1 == 'N' {
        Some(114)
    } else
    if c0 == 'K' && c1 == 'R' {
        Some(115)
    } else
    if c0 == 'K' && c1 == 'W' {
        Some(116)
    } else
    if c0 == 'K' && c1 == 'Y' {
        Some(117)
    } else
    if c0 == 'L' && c1 == 'A' {
        Some(118)
    } else
    if c0 == 'L' && c1 == 'B' {
        Some(119)
    } else
    if c0 == 'L' && c1 == 'C' {
        Some(120)
    } else
    if c0 == 'L' && c1 == 'I' {
        Some(121)
    } else
    if c0 == 'L' && c1 == 'K' {
        Some(122)
    } else
    if c0 == 'L' && c1 == 'R' {
        Some(123)
    } else
    if c0 == 'L' && c1 == 'S' {
        Some(124)
    } else
    if c0 == 'L' && c1 == 'T' {
        Some(125)
    } else
    if c0 == 'L' && c1 == 'U' {
        Some(126)
    } else
    if c0 == 'L' && c1 == 'V' {
        Some(127)
    } else
    if c0 == 'L' && c1 == 'Y' {
        Some(128)
    } else
    if c0 == 'M' && c1 == 'A' {
        Some(129)
    } else
    if c0 == 'M' && c1 == 'C' {
        Some(130)
    } else
    if c0 == 'M' && c1 == 'D' {
        Some(131)
    } else
    if c0 == 'M' && c1 == 'E' {
        Some(132)
    } else
    if c0 == 'M' && c1 == 'F' {
        Some(133)
    } else
    if c0 == 'M' && c1 == 'G' {
        Some(134)
    } else
    if c0 == 'M' && c1 == 'K' {
        Some(135)
    } else
    if c0 == 'M' && c1 == 'L' {
        Some(136)
    } else
    if c0 == 'M' && c1 == 'M' {
        Some(137)
    } else
    if c0 == 'M' && c1 == 'N' {
        Some(138)
    } else
    if c0 == 'M' && c1 == 'O' {
        Some(139)
    } else
    if c0 == 'M' && c1 == 'Q' {
        Some(140)
    } else
    if c0 == 'M' && c1 == 'R' {
        Some(141)
    } else
    if c0 == 'M' && c1 == 'S' {
        Some(142)
    } else
    if c0 == 'M' && c1 == 'T' {
        Some(143)
    } else
    if c0 == 'M' && c1 == 'U' {
        Some(144)
    } else
    if c0 == 'M' && c1 == 'V' {
        Some(145)
    } else
    if c0 == 'M' && c1 == 'W' {
        Some(146)
    } else
    if c0 == 'M' && c1 == 'X' {
        Some(147)
    } else
    if c0 == 'M' && c1 == 'Y' {
        Some(148)
    } else
    if c0 == 'M' && c1 == 'Z' {
        Some(149)
    } else
    if c0 == 'N' && c1 == 'A' {
        Some(150)
    } else
    if c0 == 'N' && c1 == 'C' {
        Some(151)
    } else
    if c0 == 'N' && c1 == 'E' {
        Some(152)
    } else
    if c0 == 'N' && c1 == 'G' {
        Some(153)
    } else
    if c0 == 'N' && c1 == 'I' {
        Some(154)
    } else
    if c0 == 'N' && c1 == 'L' {
        Some(155)
    } else
    if c0 == 'N' && c1 == 'O' {
        Some(156)
    } else
    if c0 == 'N' && c1 == 'P' {
        Some(157)
    } else
    if c0 == 'N' && c1 == 'R' {
        Some(158)
    } else
    if c0 == 'N' && c1 == 'U' {
        Some(159)
    } else
    if c0 == 'N' && c1 == 'Z' {
        Some(160)
    } else
    if c0 == 'O' && c1 == 'M' {
        Some(161)
    } else
    if c0 == 'P' && c1 == 'A' {
        Some(162)
    } else
    if c0 == 'P' && c1 == 'E' {
        Some(163)
    } else
    if c0 == 'P' && c1 == 'F' {
        Some(164)
    } else
    if c0 == 'P' && c1 == 'G' {
        Some(165)
    } else
    if c0 == 'P' && c1 == 'H' {
        Some(166)
    } else
    if c0 == 'P' && c1 == 'K' {
        Some(167)
    } else
    if c0 == 'P' && c1 == 'L' {
        Some(168)
    } else
    if c0 == 'P' && c1 == 'M' {
        Some(169)
    } else
    if c0 == 'P' && c1 == 'N' {
        Some(170)
    } else
    if c0 == 'P' && c1 == 'R' {
        Some(171)
    } else
    if c0 == 'P' && c1 == 'S' {
        Some(172)
    } else
    if c0 == 'P' && c1 == 'T' {
        Some(173)
    } else
    if c0 == 'P' && c1 == 'Y' {
        Some(174)
    } else
    if c0 == 'Q' && c1 == 'A' {
        Some(175)
    } else
    if c0 == 'R' && c1 == 'E' {
        Some(176)
    } else
    if c0 == 'R' && c1 == 'O' {
        Some(177)
    } else
    if c0 == 'R' && c1 == 'S' {
        Some(178)
    } else
    if c0 == 'R' && c1 == 'U' {
        Some(179)
    } else
    if c0 == 'R' && c1 == 'W' {
        Some(180)
    } else
    if c0 == 'S' && c1 == 'A' {
        Some(181)
    } else
    if c0 == 'S' && c1 == 'B' {
        Some(182)
    } else
    if c0 == 'S' && c1 == 'C' {
        Some(183)
    } else
    if c0 == 'S' && c1 == 'E' {
        Some(184)
    } else
    if c0 == 'S' && c1 == 'G' {
        Some(185)
    } else
    if c0 == 'S' && c1 == 'H' {
        Some(186)
    } else
    if c0 == 'S' && c1 == 'I' {
        Some(187)
    } else
    if c0 == 'S' && c1 == 'J' {
        Some(188)
    } else
    if c0 == 'S' && c1 == 'K' {
        Some(189)
    } else
    if c0 == 'S' && c1 == 'L' {
        Some(190)
    } else
    if c0 == 'S' && c1 == 'M' {
        Some(191)
    } else
    if c0 == 'S' && c1 == 'N' {
        Some(192)
    } else
    if c0 == 'S' && c1 == 'O' {
        Some(193)
    } else
    if c0 == 'S' && c1 == 'R' {
        Some(194)
    } else
    if c0 == 'S' && c1 == 'S' {
        Some(195)
    } else
    if c0 == 'S' && c1 == 'T' {
        Some(196)
    } else
    if c0 == 'S' && c1 == 'V' {
        Some(197)
    } else
    if c0 == 'S' && c1 == 'X' {
        Some(198)
    } else
    if c0 == 'S' && c1 == 'Z' {
        Some(199)
    } else
    if c0 == 'T' && c1 == 'A' {
        Some(200)
    } else
    if c0 == 'T' && c1 == 'C' {
        Some(201)
    } else
    if c0 == 'T' && c1 == 'D' {
        Some(202)
    } else
    if c0 == 'T' && c1 == 'F' {
        Some(203)
    } else
    if c0 == 'T' && c1 == 'G' {
        Some(204)
    } else
    if c0 == 'T' && c1 == 'H' {
        Some(205)
    } else
    if c0 == 'T' && c1 == 'J' {
        Some(206)
    } else
    if c0 == 'T' && c1 == 'K' {
        Some(207)
    } else
    if c0 == 'T' && c1 == 'L' {
        Some(208)
    } else
    if c0 == 'T' && c1 == 'M' {
        Some(209)
    } else
    if c0 == 'T' && c1 == 'N' {
        Some(210)
    } else
    if c0 == 'T' && c1 == 'O' {
        Some(211)
    } else
    if c0 == 'T' && c1 == 'R' {
        Some(212)
    } else
    if c0 == 'T' && c1 == 'T' {
        Some(213)
    } else
    if c0 == 'T' && c1 == 'V' {
        Some(214)
    } else
    if c0 == 'T' && c1 == 'W' {
        Some(215)
    } else
    if c0 == 'T' && c1 == 'Z' {
        Some(216)
    } else
    if c0 == 'U' && c1 == 'A' {
        Some(217)
    } else
    if c0 == 'U' && c1 == 'G' {
        Some(218)
    } else
    if c0 == 'U' && c1 == 'S' {
        Some(219)
    } else
    if c0 == 'U' && c1 == 'Y' {
        Some(220)
    } else
    if c0 == 'U' && c1 == 'Z' {
        Some(221)
    } else
    if c0 == 'V' && c1 == 'A' {
        Some(222)
    } else
    if c0 == 'V' && c1 == 'C' {
        Some(223)
    } else
    if c0 == 'V' && c1 == 'E' {
        Some(224)
    } else
    if c0 == 'V' && c1 == 'G' {
        Some(225)
    } else
    if c0 == 'V' && c1 == 'N' {
        Some(226)
    } else
    if c0 == 'V' && c1 == 'U' {
        Some(227)
    } else
    if c0 == 'W' && c1 == 'F' {
        Some(228)
    } else
    if c0 == 'W' && c1 == 'S' {
        Some(229)
    } else
    if c0 == 'X' && c1 == 'K' {
        Some(230)
    } else
    if c0 == 'Y' && c1 == 'E' {
        Some(231)
    } else
    if c0 == 'Y' && c1 == 'T' {
        Some(232)
    } else
    if c0 == 'Z' && c1 == 'A' {
        Some(233)
    } else
    if c0 == 'Z' && c1 == 'M' {
        Some(234)
    } else
    if c0 == 'Z' && c1 == 'W' {
        Some(235)
    } else
    if c0 == 'Z' && c1 == 'Z' {
        Some(236)
    } else {
        None
    }
}

/// A wire code is in the table exactly when it lies in `1..=236`.
pub open spec fn spec_valid_country(code: i32) -> bool {
    1 <= code <= COUNTRY_COUNT
}

/// Translates a wire code to the processor's two-letter country code.
pub fn country_alpha2(code: i32) -> (r: Option<(char, char)>)
    ensures
        r == spec_country_alpha2(code),
{
    match code {
        1 => Some(('A', 'C')),
        2 => Some(('A', 'D')),
        3 => Some(('A', 'E')),
        4 => Some(('A', 'F')),
        5 => Some(('A', 'G')),
        6 => Some(('A', 'I')),
        7 => Some(('A', 'L')),
        8 => Some(('A', 'M')),
        9 => Some(('A', 'O')),
        10 => Some(('A', 'Q')),
        11 => Some(('A', 'R')),
        12 => Some(('A', 'T')),
        13 => Some(('A', 'U')),
        14 => Some(('A', 'W')),
        15 => Some(('A', 'X')),
        16 => Some(('A', 'Z')),
        17 => Some(('B', 'A')),
        18 => Some(('B', 'B')),
        19 => Some(('B', 'D')),
        20 => Some(('B', 'E')),
        21 => Some(('B', 'F')),
        22 => Some(('B', 'G')),
        23 => Some(('B', 'H')),
        24 => Some(('B', 'I')),
        25 => Some(('B', 'J')),
        26 => Some(('B', 'L')),
        27 => Some(('B', 'M')),
        28 => Some(('B', 'N')),
        29 => Some(('B', 'O')),
        30 => Some(('B', 'Q')),
        31 => Some(('B', 'R')),
        32 => Some(('B', 'S')),
        33 => Some(('B', 'T')),
        34 => Some(('B', 'V')),
        35 => Some(('B', 'W')),
        36 => Some(('B', 'Y')),
        37 => Some(('B', 'Z')),
        38 => Some(('C', 'A')),
        39 => Some(('C', 'D')),
        40 => Some(('C', 'F')),
        41 => Some(('C', 'G')),
        42 => Some(('C', 'H')),
        43 => Some(('C', 'I')),
        44 => Some(('C', 'K')),
        45 => Some(('C', 'L')),
        46 => Some(('C', 'M')),
        47 => Some(('C', 'N')),
        48 => Some(('C', 'O')),
        49 => Some(('C', 'R')),
        50 => Some(('C', 'V')),
        51 => Some(('C', 'W')),
        52 => Some(('C', 'Y')),
        53 => Some(('C', 'Z')),
        54 => Some(('D', 'E')),
        55 => Some(('D', 'J')),
        56 => Some(('D', 'K')),
        57 => Some(('D', 'M')),
        58 => Some(('D', 'O')),
        59 => Some(('D', 'Z')),
        60 => Some(('E', 'C')),
        61 => Some(('E', 'E')),
        62 => Some(('E', 'G')),
        63 => Some(('E', 'H')),
        64 => Some(('E', 'R')),
        65 => Some(('E', 'S')),
        66 => Some(('E', 'T')),
        67 => Some(('F', 'I')),
        68 => Some(('F', 'J')),
        69 => Some(('F', 'K')),
        70 => Some(('F', 'O')),
        71 => Some(('F', 'R')),
        72 => Some(('G', 'A')),
        73 => Some(('G', 'B')),
        74 => Some(('G', 'D')),
        75 => Some(('G', 'E')),
        76 => Some(('G', 'F')),
        77 => Some(('G', 'G')),
        78 => Some(('G', 'H')),
        79 => Some(('G', 'I')),
        80 => Some(('G', 'L')),
        81 => Some(('G', 'M')),
        82 => Some(('G', 'N')),
        83 => Some(('G', 'P')),
        84 => Some(('G', 'Q')),
        85 => Some(('G', 'R')),
        86 => Some(('G', 'S')),
        87 => Some(('G', 'T')),
        88 => Some(('G', 'U')),
        89 => Some(('G', 'W')),
        90 => Some(('G', 'Y')),
        91 => Some(('H', 'K')),
        92 => Some(('H', 'N')),
        93 => Some(('H', 'R')),
        94 => Some(('H', 'T')),
        95 => Some(('H', 'U')),
        96 => Some(('I', 'D')),
        97 => Some(('I', 'E')),
        98 => Some(('I', 'L')),
        99 => Some(('I', 'M')),
        100 => Some(('I', 'N')),
        101 => Some(('I', 'O')),
        102 => Some(('I', 'Q')),
        103 => Some(('I', 'S')),
        104 => Some(('I', 'T')),
        105 => Some(('J', 'E')),
        106 => Some(('J', 'M')),
        107 => Some(('J', 'O')),
        108 => Some(('J', 'P')),
        109 => Some(('K', 'E')),
        110 => Some(('K', 'G')),
        111 => Some(('K', 'H')),
        112 => Some(('K', 'I')),
        113 => Some(('K', 'M')),
        114 => Some(('K', 'N')),
        115 => Some(('K', 'R')),
        116 => Some(('K', 'W')),
        117 => Some(('K', 'Y')),
        118 => Some(('L', 'A')),
        119 => Some(('L', 'B')),
        120 => Some(('L', 'C')),
        121 => Some(('L', 'I')),
        122 => Some(('L', 'K')),
        123 => Some(('L', 'R')),
        124 => Some(('L', 'S')),
        125 => Some(('L', 'T')),
        126 => Some(('L', 'U')),
        127 => Some(('L', 'V')),
        128 => Some(('L', 'Y')),
        129 => Some(('M', 'A')),
        130 => Some(('M', 'C')),
        131 => Some(('M', 'D')),
        132 => Some(('M', 'E')),
        133 => Some(('M', 'F')),
        134 => Some(('M', 'G')),
        135 => Some(('M', 'K')),
        136 => Some(('M', 'L')),
        137 => Some(('M', 'M')),
        138 => Some(('M', 'N')),
        139 => Some(('M', 'O')),
        140 => Some(('M', 'Q')),
        141 => Some(('M', 'R')),
        142 => Some(('M', 'S')),
        143 => Some(('M', 'T')),
        144 => Some(('M', 'U')),
        145 => Some(('M', 'V')),
        146 => Some(('M', 'W')),
        147 => Some(('M', 'X')),
        148 => Some(('M', 'Y')),
        149 => Some(('M', 'Z')),
        150 => Some(('N', 'A')),
        151 => Some(('N', 'C')),
        152 => Some(('N', 'E')),
        153 => Some(('N', 'G')),
        154 => Some(('N', 'I')),
        155 => Some(('N', 'L')),
        156 => Some(('N', 'O')),
        157 => Some(('N', 'P')),
        158 => Some(('N', 'R')),
        159 => Some(('N', 'U')),
        160 => Some(('N', 'Z')),
        161 => Some(('O', 'M')),
        162 => Some(('P', 'A')),
        163 => Some(('P', 'E')),
        164 => Some(('P', 'F')),
        165 => Some(('P', 'G')),
        166 => Some(('P', 'H')),
        167 => Some(('P', 'K')),
        168 => Some(('P', 'L')),
        169 => Some(('P', 'M')),
        170 => Some(('P', 'N')),
        171 => Some(('P', 'R')),
        172 => Some(('P', 'S')),
        173 => Some(('P', 'T')),
        174 => Some(('P', 'Y')),
        175 => Some(('Q', 'A')),
        176 => Some(('R', 'E')),
        177 => Some(('R', 'O')),
        178 => Some(('R', 'S')),
        179 => Some(('R', 'U')),
        180 => Some(('R', 'W')),
        181 => Some(('S', 'A')),
        182 => Some(('S', 'B')),
        183 => Some(('S', 'C')),
        184 => Some(('S', 'E')),
        185 => Some(('S', 'G')),
        186 => Some(('S', 'H')),
        187 => Some(('S', 'I')),
        188 => Some(('S', 'J')),
        189 => Some(('S', 'K')),
        190 => Some(('S', 'L')),
        191 => Some(('S', 'M')),
        192 => Some(('S', 'N')),
        193 => Some(('S', 'O')),
        194 => Some(('S', 'R')),
        195 => Some(('S', 'S')),
        196 => Some(('S', 'T')),
        197 => Some(('S', 'V')),
        198 => Some(('S', 'X')),
        199 => Some(('S', 'Z')),
        200 => Some(('T', 'A')),
        201 => Some(('T', 'C')),
        202 => Some(('T', 'D')),
        203 => Some(('T', 'F')),
        204 => Some(('T', 'G')),
        205 => Some(('T', 'H')),
        206 => Some(('T', 'J')),
        207 => Some(('T', 'K')),
        208 => Some(('T', 'L')),
        209 => Some(('T', 'M')),
        210 => Some(('T', 'N')),
        211 => Some(('T', 'O')),
        212 => Some(('T', 'R')),
        213 => Some(('T', 'T')),
        214 => Some(('T', 'V')),
        215 => Some(('T', 'W')),
        216 => Some(('T', 'Z')),
        217 => Some(('U', 'A')),
        218 => Some(('U', 'G')),
        219 => Some(('U', 'S')),
        220 => Some(('U', 'Y')),
        221 => Some(('U', 'Z')),
        222 => Some(('V', 'A')),
        223 => Some(('V', 'C')),
        224 => Some(('V', 'E')),
        225 => Some(('V', 'G')),
        226 => Some(('V', 'N')),
        227 => Some(('V', 'U')),
        228 => Some(('W', 'F')),
        229 => Some(('W', 'S')),
        230 => Some(('X', 'K')),
        231 => Some(('Y', 'E')),
        232 => Some(('Y', 'T')),
        233 => Some(('Z', 'A')),
        234 => Some(('Z', 'M')),
        235 => Some(('Z', 'W')),
        236 => Some(('Z', 'Z')),
        _ => None,
    }
}

/// Translates a two-letter country code back to its wire code.
pub fn country_code(c0: char, c1: char) -> (r: Option<i32>)
    ensures
        r == spec_country_code(c0, c1),
{
    match (c0, c1) {
        ('A', 'C') => Some(1),
        ('A', 'D') => Some(2),
        ('A', 'E') => Some(3),
        ('A', 'F') => Some(4),
        ('A', 'G') => Some(5),
        ('A', 'I') => Some(6),
        ('A', 'L') => Some(7),
        ('A', 'M') => Some(8),
        ('A', 'O') => Some(9),
        ('A', 'Q') => Some(10),
        ('A', 'R') => Some(11),
        ('A', 'T') => Some(12),
        ('A', 'U') => Some(13),
        ('A', 'W') => Some(14),
        ('A', 'X') => Some(15),
        ('A', 'Z') => Some(16),
        ('B', 'A') => Some(17),
        ('B', 'B') => Some(18),
        ('B', 'D') => Some(19),
        ('B', 'E') => Some(20),
        ('B', 'F') => Some(21),
        ('B', 'G') => Some(22),
        ('B', 'H') => Some(23),
        ('B', 'I') => Some(24),
        ('B', 'J') => Some(25),
        ('B', 'L') => Some(26),
        ('B', 'M') => Some(27),
        ('B', 'N') => Some(28),
        ('B', 'O') => Some(29),
        ('B', 'Q') => Some(30),
        ('B', 'R') => Some(31),
        ('B', 'S') => Some(32),
        ('B', 'T') => Some(33),
        ('B', 'V') => Some(34),
        ('B', 'W') => Some(35),
        ('B', 'Y') => Some(36),
        ('B', 'Z') => Some(37),
        ('C', 'A') => Some(38),
        ('C', 'D') => Some(39),
        ('C', 'F') => Some(40),
        ('C', 'G') => Some(41),
        ('C', 'H') => Some(42),
        ('C', 'I') => Some(43),
        ('C', 'K') => Some(44),
        ('C', 'L') => Some(45),
        ('C', 'M') => Some(46),
        ('C', 'N') => Some(47),
        ('C', 'O') => Some(48),
        ('C', 'R') => Some(49),
        ('C', 'V') => Some(50),
        ('C', 'W') => Some(51),
        ('C', 'Y') => Some(52),
        ('C', 'Z') => Some(53),
        ('D', 'E') => Some(54),
        ('D', 'J') => Some(55),
        ('D', 'K') => Some(56),
        ('D', 'M') => Some(57),
        ('D', 'O') => Some(58),
        ('D', 'Z') => Some(59),
        ('E', 'C') => Some(60),
        ('E', 'E') => Some(61),
        ('E', 'G') => Some(62),
        ('E', 'H') => Some(63),
        ('E', 'R') => Some(64),
        ('E', 'S') => Some(65),
        ('E', 'T') => Some(66),
        ('F', 'I') => Some(67),
        ('F', 'J') => Some(68),
        ('F', 'K') => Some(69),
        ('F', 'O') => Some(70),
        ('F', 'R') => Some(71),
        ('G', 'A') => Some(72),
        ('G', 'B') => Some(73),
        ('G', 'D') => Some(74),
        ('G', 'E') => Some(75),
        ('G', 'F') => Some(76),
        ('G', 'G') => Some(77),
        ('G', 'H') => Some(78),
        ('G', 'I') => Some(79),
        ('G', 'L') => Some(80),
        ('G', 'M') => Some(81),
        ('G', 'N') => Some(82),
        ('G', 'P') => Some(83),
        ('G', 'Q') => Some(84),
        ('G', 'R') => Some(85),
        ('G', 'S') => Some(86),
        ('G', 'T') => Some(87),
        ('G', 'U') => Some(88),
        ('G', 'W') => Some(89),
        ('G', 'Y') => Some(90),
        ('H', 'K') => Some(91),
        ('H', 'N') => Some(92),
        ('H', 'R') => Some(93),
        ('H', 'T') => Some(94),
        ('H', 'U') => Some(95),
        ('I', 'D') => Some(96),
        ('I', 'E') => Some(97),
        ('I', 'L') => Some(98),
        ('I', 'M') => Some(99),
        ('I', 'N') => Some(100),
        ('I', 'O') => Some(101),
        ('I', 'Q') => Some(102),
        ('I', 'S') => Some(103),
        ('I', 'T') => Some(104),
        ('J', 'E') => Some(105),
        ('J', 'M') => Some(106),
        ('J', 'O') => Some(107),
        ('J', 'P') => Some(108),
        ('K', 'E') => Some(109),
        ('K', 'G') => Some(110),
        ('K', 'H') => Some(111),
        ('K', 'I') => Some(112),
        ('K', 'M') => Some(113),
        ('K', 'N') => Some(114),
        ('K', 'R') => Some(115),
        ('K', 'W') => Some(116),
        ('K', 'Y') => Some(117),
        ('L', 'A') => Some(118),
        ('L', 'B') => Some(119),
        ('L', 'C') => Some(120),
        ('L', 'I') => Some(121),
        ('L', 'K') => Some(122),
        ('L', 'R') => Some(123),
        ('L', 'S') => Some(124),
        ('L', 'T') => Some(125),
        ('L', 'U') => Some(126),
        ('L', 'V') => Some(127),
        ('L', 'Y') => Some(128),
        ('M', 'A') => Some(129),
        ('M', 'C') => Some(130),
        ('M', 'D') => Some(131),
        ('M', 'E') => Some(132),
        ('M', 'F') => Some(133),
        ('M', 'G') => Some(134),
        ('M', 'K') => Some(135),
        ('M', 'L') => Some(136),
        ('M', 'M') => Some(137),
        ('M', 'N') => Some(138),
        ('M', 'O') => Some(139),
        ('M', 'Q') => Some(140),
        ('M', 'R') => Some(141),
        ('M', 'S') => Some(142),
        ('M', 'T') => Some(143),
        ('M', 'U') => Some(144),
        ('M', 'V') => Some(145),
        ('M', 'W') => Some(146),
        ('M', 'X') => Some(147),
        ('M', 'Y') => Some(148),
        ('M', 'Z') => Some(149),
        ('N', 'A') => Some(150),
        ('N', 'C') => Some(151),
        ('N', 'E') => Some(152),
        ('N', 'G') => Some(153),
        ('N', 'I') => Some(154),
        ('N', 'L') => Some(155),
        ('N', 'O') => Some(156),
        ('N', 'P') => Some(157),
        ('N', 'R') => Some(158),
        ('N', 'U') => Some(159),
        ('N', 'Z') => Some(160),
        ('O', 'M') => Some(161),
        ('P', 'A') => Some(162),
        ('P', 'E') => Some(163),
        ('P', 'F') => Some(164),
        ('P', 'G') => Some(165),
        ('P', 'H') => Some(166),
        ('P', 'K') => Some(167),
        ('P', 'L') => Some(168),
        ('P', 'M') => Some(169),
        ('P', 'N') => Some(170),
        ('P', 'R') => Some(171),
        ('P', 'S') => Some(172),
        ('P', 'T') => Some(173),
        ('P', 'Y') => Some(174),
        ('Q', 'A') => Some(175),
        ('R', 'E') => Some(176),
        ('R', 'O') => Some(177),
        ('R', 'S') => Some(178),
        ('R', 'U') => Some(179),
        ('R', 'W') => Some(180),
        ('S', 'A') => Some(181),
        ('S', 'B') => Some(182),
        ('S', 'C') => Some(183),
        ('S', 'E') => Some(184),
        ('S', 'G') => Some(185),
        ('S', 'H') => Some(186),
        ('S', 'I') => Some(187),
        ('S', 'J') => Some(188),
        ('S', 'K') => Some(189),
        ('S', 'L') => Some(190),
        ('S', 'M') => Some(191),
        ('S', 'N') => Some(192),
        ('S', 'O') => Some(193),
        ('S', 'R') => Some(194),
        ('S', 'S') => Some(195),
        ('S', 'T') => Some(196),
        ('S', 'V') => Some(197),
        ('S', 'X') => Some(198),
        ('S', 'Z') => Some(199),
        ('T', 'A') => Some(200),
        ('T', 'C') => Some(201),
        ('T', 'D') => Some(202),
        ('T', 'F') => Some(203),
        ('T', 'G') => Some(204),
        ('T', 'H') => Some(205),
        ('T', 'J') => Some(206),
        ('T', 'K') => Some(207),
        ('T', 'L') => Some(208),
        ('T', 'M') => Some(209),
        ('T', 'N') => Some(210),
        ('T', 'O') => Some(211),
        ('T', 'R') => Some(212),
        ('T', 'T') => Some(213),
        ('T', 'V') => Some(214),
        ('T', 'W') => Some(215),
        ('T', 'Z') => Some(216),
        ('U', 'A') => Some(217),
        ('U', 'G') => Some(218),
        ('U', 'S') => Some(219),
        ('U', 'Y') => Some(220),
        ('U', 'Z') => Some(221),
        ('V', 'A') => Some(222),
        ('V', 'C') => Some(223),
        ('V', 'E') => Some(224),
        ('V', 'G') => Some(225),
        ('V', 'N') => Some(226),
        ('V', 'U') => Some(227),
        ('W', 'F') => Some(228),
        ('W', 'S') => Some(229),
        ('X', 'K') => Some(230),
        ('Y', 'E') => Some(231),
        ('Y', 'T') => Some(232),
        ('Z', 'A') => Some(233),
        ('Z', 'M') => Some(234),
        ('Z', 'W') => Some(235),
        ('Z', 'Z') => Some(236),
        _ => None,
    }
}


/// A wire code translates exactly when it lies in the table's range.
pub proof fn lemma_country_alpha2_defined(code: i32)
    ensures
        spec_country_alpha2(code) is Some <==> spec_valid_country(code),
{
}

/// Translating a wire code to letters and back recovers the code: the
/// table is a bijection between `1..=236` and the letter pairs it lists.
pub proof fn lemma_country_round_trip(code: i32)
    requires
        spec_valid_country(code),
    ensures
        spec_country_alpha2(code) matches Some(a) && spec_country_code(a.0, a.1) == Some(code),
{
}

/// Translating letters to a wire code and back recovers the letters.
pub proof fn lemma_country_letters_round_trip(c0: char, c1: char)
    requires
        spec_country_code(c0, c1) is Some,
    ensures
        spec_country_code(c0, c1) matches Some(n) && spec_country_alpha2(n) == Some((c0, c1)),
{
}

/// The full supported-country set: every wire code of the table, in
/// table order.
pub fn all_country_codes() -> (r: Vec<i32>)
    ensures
        r@.len() == COUNTRY_COUNT as int,
        forall|i: int| 0 <= i < r@.len() ==> r@[i] == i + 1,
{
    let mut v: Vec<i32> = Vec::new();
    let mut c: i32 = 1;
    while c <= COUNTRY_COUNT
        invariant
            1 <= c <= COUNTRY_COUNT + 1,
            v@.len() == c - 1,
            forall|i: int| 0 <= i < v@.len() ==> v@[i] == i + 1,
        decreases COUNTRY_COUNT + 1 - c,
    {
        v.push(c);
        c = c + 1;
    }
    v
}

/// The allow-list a shipping rate's explicit country list translates
/// to: the codes the table knows, in their given order.
pub open spec fn spec_allowed_list(countries: Seq<i32>) -> Seq<i32> {
    countries.filter(|c: i32| spec_valid_country(c))
}

/// The address-collection country list of a checkout session: the full
/// supported set when the rate covers all countries, otherwise the
/// rate's explicit allow-list with unknown codes dropped.
pub fn get_shipping_address_countries(all_countries: bool, countries: &Vec<i32>) -> (r: Vec<
    i32,
>)
    ensures
        all_countries ==> r@.len() == COUNTRY_COUNT as int && (forall|i: int|
            0 <= i < r@.len() ==> r@[i] == i + 1),
        !all_countries ==> r@ == spec_allowed_list(countries@),
{
    if all_countries {
        all_country_codes()
    } else {
        let mut v: Vec<i32> = Vec::new();
        let n = countries.len();
        let mut i: usize = 0;
        proof {
            assert(countries@.subrange(0, 0) =~= Seq::<i32>::empty());
            assert(spec_allowed_list(countries@.subrange(0, 0)) =~= Seq::<i32>::empty());
        }
        while i < n
            invariant
                i <= n,
                n == countries@.len(),
                v@ == spec_allowed_list(countries@.subrange(0, i as int)),
            decreases n - i,
        {
            let code = countries[i];
            proof {
                let pred = |c: i32| spec_valid_country(c);
                let pre = countries@.subrange(0, i as int);
                let cur = countries@.subrange(0, i + 1);
                assert(cur.drop_last() =~= pre);
                assert(cur.last() == code);
                reveal(Seq::filter);
                if pred(code) {
                    assert(cur.filter(pred) =~= pre.filter(pred).push(code));
                } else {
                    assert(cur.filter(pred) =~= pre.filter(pred));
                }
            }
            if 1 <= code && code <= COUNTRY_COUNT {
                v.push(code);
            }
            i = i + 1;
        }
        proof {
            assert(countries@.subrange(0, n as int) =~= countries@);
        }
        v
    }
}

} // verus!
