//! The factorial table: `n!` for every `n` a 64-bit double can hold, as
//! IEEE 754 bit patterns.
//!
//! `170!` is the largest factorial with a finite double-precision value;
//! `171!` overflows.  Entry `n` of the table is the correctly rounded double
//! produced by the running product `1 * 2 * ... * n` carried out in double
//! precision, written down as the bit pattern of that double so that this
//! module stays free of floating-point arithmetic and can be verified.  The
//! crate's tests re-check the running-product recurrence exactly, at double
//! precision, for every entry.

use vstd::prelude::*;

verus! {

/// The largest argument whose factorial is representable by a 64-bit
/// double without overflowing: every factorial beyond `170!` is infinite
/// in double precision.
pub const MAX_ARG: u64 = 170;

/// The IEEE 754 bit pattern of positive infinity in a 64-bit double: the
/// value that stands for every factorial beyond `MAX_ARG!`.
pub const F64_INFINITY_BITS: u64 = 0x7FF0000000000000;

/// The bit pattern of the double holding `n!`: the table entry for
/// `n <= MAX_ARG`, positive infinity for every larger `n`.
pub open spec fn factorial_bits_spec(n: u64) -> u64 {
    if n == 0 { 0x3FF0000000000000
    } else if n == 1 { 0x3FF0000000000000
    } else if n == 2 { 0x4000000000000000
    } else if n == 3 { 0x4018000000000000
    } else if n == 4 { 0x4038000000000000
    } else if n == 5 { 0x405E000000000000
    } else if n == 6 { 0x4086800000000000
    } else if n == 7 { 0x40B3B00000000000
    } else if n == 8 { 0x40E3B00000000000
    } else if n == 9 { 0x4116260000000000
    } else if n == 10 { 0x414BAF8000000000
    } else if n == 11 { 0x418308A800000000
    } else if n == 12 { 0x41BC8CFC00000000
    } else if n == 13 { 0x41F7328CC0000000
    } else if n == 14 { 0x42344C3B28000000
    } else if n == 15 { 0x4273077775800000
    } else if n == 16 { 0x42B3077775800000
    } else if n == 17 { 0x42F437EEECD80000
    } else if n == 18 { 0x4336BEECCA730000
    } else if n == 19 { 0x437B02B930689000
    } else if n == 20 { 0x43C0E1B3BE415A00
    } else if n == 21 { 0x4406283BE9B5C620
    } else if n == 22 { 0x444E77526159F06C
    } else if n == 23 { 0x4495E5C335F8A4CE
    } else if n == 24 { 0x44E06C52687A7B9A
    } else if n == 25 { 0x4529A940C33F6121
    } else if n == 26 { 0x4574D9849EA37EEB
    } else if n == 27 { 0x45C19787E5D9F316
    } else if n == 28 { 0x460EC92DD23D6966
    } else if n == 29 { 0x465BE6518687A784
    } else if n == 30 { 0x46AA27EC6E1F2D0C
    } else if n == 31 { 0x46F956AD0AAE33A4
    } else if n == 32 { 0x474956AD0AAE33A4
    } else if n == 33 { 0x479A21627303A541
    } else if n == 34 { 0x47EBC3789A33DF95
    } else if n == 35 { 0x483E5DCBE8A8BC8B
    } else if n == 36 { 0x489114C2B2DEEA0E
    } else if n == 37 { 0x48E3C0011ED1BEA0
    } else if n == 38 { 0x493774015499125E
    } else if n == 39 { 0x498C95619F1A8E63
    } else if n == 40 { 0x49E1DD5D037098FE
    } else if n == 41 { 0x4A36E39F2C684405
    } else if n == 42 { 0x4A8E0AC0EA48D947
    } else if n == 43 { 0x4AE42F399D68F1FC
    } else if n == 44 { 0x4B3BC0EF38704CBA
    } else if n == 45 { 0x4B9383A833AEF5F3
    } else if n == 46 { 0x4BEC0D41CA4B818D
    } else if n == 47 { 0x4C4499BC508F7324
    } else if n == 48 { 0x4C9EE69A78D72CB6
    } else if n == 49 { 0x4CF7A88E4484BE3B
    } else if n == 50 { 0x4D527BAF2587B49E
    } else if n == 51 { 0x4DAD751F23D047DC
    } else if n == 52 { 0x4E07EF294D193A63
    } else if n == 53 { 0x4E63D20E33D8E45A
    } else if n == 54 { 0x4EC0B93BFBBF00AC
    } else if n == 55 { 0x4F1CBE5F18B04928
    } else if n == 56 { 0x4F792693359A4003
    } else if n == 57 { 0x4FD6665B1BBD6103
    } else if n == 58 { 0x50344CC291239FEB
    } else if n == 59 { 0x5092B6C35DCCD76D
    } else if n == 60 { 0x50F18B5727F009F6
    } else if n == 61 { 0x5150B8CF1210C97E
    } else if n == 62 { 0x51B0330899804332
    } else if n == 63 { 0x520FE478EE34844A
    } else if n == 64 { 0x526FE478EE34844A
    } else if n == 65 { 0x52D0320568F6AB2E
    } else if n == 66 { 0x5330B395943E6087
    } else if n == 67 { 0x53917C0097314D0D
    } else if n == 68 { 0x53F293C0A0A461DE
    } else if n == 69 { 0x5454074BAD313983
    } else if n == 70 { 0x54B5E7FAC56DD6E7
    } else if n == 71 { 0x55184D5A3305DA68
    } else if n == 72 { 0x557B5705796695B5
    } else if n == 73 { 0x55DF2F423E7902C2
    } else if n == 74 { 0x564207524C1DF598
    } else if n == 75 { 0x56A5209471331BCE
    } else if n == 76 { 0x570916B0466CB105
    } else if n == 77 { 0x576E2F4C14BAC4FA
    } else if n == 78 { 0x57D264D25CA1D008
    } else if n == 79 { 0x5836B473AA57BCCA
    } else if n == 80 { 0x589C619094EDABFC
    } else if n == 81 { 0x5901F5BD7E3E66D5
    } else if n == 82 { 0x596702DAC9BFF3C1
    } else if n == 83 { 0x59CDD7B3BDA4F01E
    } else if n == 84 { 0x5A33958DF4743D94
    } else if n == 85 { 0x5A9A02A088AA61C9
    } else if n == 86 { 0x5B0179C3DBD279B3
    } else if n == 87 { 0x5B67C1863ED21D6F
    } else if n == 88 { 0x5BD0550C4B30743C
    } else if n == 89 { 0x5C36B645188F61A3
    } else if n == 90 { 0x5C9FF0512A89A14D
    } else if n == 91 { 0x5D06B4D9B43DD8AD
    } else if n == 92 { 0x5D7051FC798C73BC
    } else if n == 93 { 0x5DD7B722E0A0182D
    } else if n == 94 { 0x5E416A7D9CF591C1
    } else if n == 95 { 0x5EA9DA1274FC845A
    } else if n == 96 { 0x5F13638DD7BD6344
    } else if n == 97 { 0x5F7D62E2FAFB0A73
    } else if n == 98 { 0x5FE67FB5C8283400
    } else if n == 99 { 0x605166C698CF1838
    } else if n == 100 { 0x60BB30964EC395D8
    } else if n == 101 { 0x612574569A26543C
    } else if n == 102 { 0x619118B502D68B20
    } else if n == 103 { 0x61FB83C3509147E8
    } else if n == 104 { 0x62665B0EB1760A6C
    } else if n == 105 { 0x62D256B20D92D48D
    } else if n == 106 { 0x633E5F96E67B300A
    } else if n == 107 { 0x63A963E824AAFA28
    } else if n == 108 { 0x64156C4BDEF04312
    } else if n == 109 { 0x64823E389BD8991D
    } else if n == 110 { 0x64EF5AF14BDC472A
    } else if n == 111 { 0x655B30DD3FC905B6
    } else if n == 112 { 0x65C7CAC197CFE4FF
    } else if n == 113 { 0x663500FEE8058829
    } else if n == 114 { 0x66A2B4E306A4ED45
    } else if n == 115 { 0x6710CE83F7F82D2C
    } else if n == 116 { 0x677E764F3171D1E0
    } else if n == 117 { 0x67EBD824633209D7
    } else if n == 118 { 0x6859AB418B722112
    } else if n == 119 { 0x68C7DD36EFA41ABF
    } else if n == 120 { 0x69365F6380A9D913
    } else if n == 121 { 0x69A5262C0FA08F34
    } else if n == 122 { 0x6A142861FEE5087E
    } else if n == 123 { 0x6A835ECE2AF01629
    } else if n == 124 { 0x6AF2C3D7B9989578
    } else if n == 125 { 0x6B625340AB3F01F7
    } else if n == 126 { 0x6BD209F3A89205EF
    } else if n == 127 { 0x6C41E5DFC140E1E3
    } else if n == 128 { 0x6CB1E5DFC140E1E3
    } else if n == 129 { 0x6D2209AB80C363A7
    } else if n == 130 { 0x6D9251D22EC67136
    } else if n == 131 { 0x6E02BFBD1BDF17DD
    } else if n == 132 { 0x6E7355BB04BE109C
    } else if n == 133 { 0x6EE4171452ED7D42
    } else if n == 134 { 0x6F55082946D09F21
    } else if n == 135 { 0x6FC62E9B88B007D5
    } else if n == 136 { 0x70379185413B0852
    } else if n == 137 { 0x70A939C09FD12EE8
    } else if n == 138 { 0x711B3243AC4D8692
    } else if n == 139 { 0x718D88957D1C3023
    } else if n == 140 { 0x720026B1C06B6A53
    } else if n == 141 { 0x7271CA9FCDF6531F
    } else if n == 142 { 0x72E3BCC9487D4436
    } else if n == 143 { 0x73560CE8DEFBF234
    } else if n == 144 { 0x73C8CE85FADB707A
    } else if n == 145 { 0x743C19F3C62C956A
    } else if n == 146 { 0x74B006CD07056D36
    } else if n == 147 { 0x752267CF76103B6C
    } else if n == 148 { 0x75954807E082C4B5
    } else if n == 149 { 0x7608C5D92B5838FB
    } else if n == 150 { 0x767D07DA7ECB62C6
    } else if n == 151 { 0x76F11FA1E0C9F743
    } else if n == 152 { 0x776455903AEFD5A0
    } else if n == 153 { 0x77D84E466672AD59
    } else if n == 154 { 0x784D3E2CB341F88F
    } else if n == 155 { 0x78C1B4A51088F17F
    } else if n == 156 { 0x793594292C26E653
    } else if n == 157 { 0x79AA77BA8027B682
    } else if n == 158 { 0x7A2055E51B1882A4
    } else if n == 159 { 0x7A944AB297A87248
    } else if n == 160 { 0x7B095D5F3D928EDA
    } else if n == 161 { 0x7B7FE771CB7257AE
    } else if n == 162 { 0x7BF4307602BE5B7C
    } else if n == 163 { 0x7C69B5B6477E6880
    } else if n == 164 { 0x7CE07868C5CCFAF2
    } else if n == 165 { 0x7D553B370EFA3B7C
    } else if n == 166 { 0x7DCB88CB676C8525
    } else if n == 167 { 0x7E41F63CB077CADB
    } else if n == 168 { 0x7EB7932FA79D3A3F
    } else if n == 169 { 0x7F2F2054EB4D96E7
    } else if n == 170 { 0x7FA4AB7864418635
    } else { F64_INFINITY_BITS }
}

/// Looks up `n!` as the bit pattern of a 64-bit double.  For `n <= MAX_ARG`
/// this is the correctly rounded value of the running product
/// `1 * 2 * ... * n`; for every larger `n` it is positive infinity, the
/// saturating sentinel for factorials beyond the finite range of a double.
pub fn factorial_bits(n: u64) -> (r: u64)
    ensures
        r == factorial_bits_spec(n),
        n > MAX_ARG ==> r == F64_INFINITY_BITS,
{
    if n == 0 { 0x3FF0000000000000
    } else if n == 1 { 0x3FF0000000000000
    } else if n == 2 { 0x4000000000000000
    } else if n == 3 { 0x4018000000000000
    } else if n == 4 { 0x4038000000000000
    } else if n == 5 { 0x405E000000000000
    } else if n == 6 { 0x4086800000000000
    } else if n == 7 { 0x40B3B00000000000
    } else if n == 8 { 0x40E3B00000000000
    } else if n == 9 { 0x4116260000000000
    } else if n == 10 { 0x414BAF8000000000
    } else if n == 11 { 0x418308A800000000
    } else if n == 12 { 0x41BC8CFC00000000
    } else if n == 13 { 0x41F7328CC0000000
    } else if n == 14 { 0x42344C3B28000000
    } else if n == 15 { 0x4273077775800000
    } else if n == 16 { 0x42B3077775800000
    } else if n == 17 { 0x42F437EEECD80000
    } else if n == 18 { 0x4336BEECCA730000
    } else if n == 19 { 0x437B02B930689000
    } else if n == 20 { 0x43C0E1B3BE415A00
    } else if n == 21 { 0x4406283BE9B5C620
    } else if n == 22 { 0x444E77526159F06C
    } else if n == 23 { 0x4495E5C335F8A4CE
    } else if n == 24 { 0x44E06C52687A7B9A
    } else if n == 25 { 0x4529A940C33F6121
    } else if n == 26 { 0x4574D9849EA37EEB
    } else if n == 27 { 0x45C19787E5D9F316
    } else if n == 28 { 0x460EC92DD23D6966
    } else if n == 29 { 0x465BE6518687A784
    } else if n == 30 { 0x46AA27EC6E1F2D0C
    } else if n == 31 { 0x46F956AD0AAE33A4
    } else if n == 32 { 0x474956AD0AAE33A4
    } else if n == 33 { 0x479A21627303A541
    } else if n == 34 { 0x47EBC3789A33DF95
    } else if n == 35 { 0x483E5DCBE8A8BC8B
    } else if n == 36 { 0x489114C2B2DEEA0E
    } else if n == 37 { 0x48E3C0011ED1BEA0
    } else if n == 38 { 0x493774015499125E
    } else if n == 39 { 0x498C95619F1A8E63
    } else if n == 40 { 0x49E1DD5D037098FE
    } else if n == 41 { 0x4A36E39F2C684405
    } else if n == 42 { 0x4A8E0AC0EA48D947
    } else if n == 43 { 0x4AE42F399D68F1FC
    } else if n == 44 { 0x4B3BC0EF38704CBA
    } else if n == 45 { 0x4B9383A833AEF5F3
    } else if n == 46 { 0x4BEC0D41CA4B818D
    } else if n == 47 { 0x4C4499BC508F7324
    } else if n == 48 { 0x4C9EE69A78D72CB6
    } else if n == 49 { 0x4CF7A88E4484BE3B
    } else if n == 50 { 0x4D527BAF2587B49E
    } else if n == 51 { 0x4DAD751F23D047DC
    } else if n == 52 { 0x4E07EF294D193A63
    } else if n == 53 { 0x4E63D20E33D8E45A
    } else if n == 54 { 0x4EC0B93BFBBF00AC
    } else if n == 55 { 0x4F1CBE5F18B04928
    } else if n == 56 { 0x4F792693359A4003
    } else if n == 57 { 0x4FD6665B1BBD6103
    } else if n == 58 { 0x50344CC291239FEB
    } else if n == 59 { 0x5092B6C35DCCD76D
    } else if n == 60 { 0x50F18B5727F009F6
    } else if n == 61 { 0x5150B8CF1210C97E
    } else if n == 62 { 0x51B0330899804332
    } else if n == 63 { 0x520FE478EE34844A
    } else if n == 64 { 0x526FE478EE34844A
    } else if n == 65 { 0x52D0320568F6AB2E
    } else if n == 66 { 0x5330B395943E6087
    } else if n == 67 { 0x53917C0097314D0D
    } else if n == 68 { 0x53F293C0A0A461DE
    } else if n == 69 { 0x5454074BAD313983
    } else if n == 70 { 0x54B5E7FAC56DD6E7
    } else if n == 71 { 0x55184D5A3305DA68
    } else if n == 72 { 0x557B5705796695B5
    } else if n == 73 { 0x55DF2F423E7902C2
    } else if n == 74 { 0x564207524C1DF598
    } else if n == 75 { 0x56A5209471331BCE
    } else if n == 76 { 0x570916B0466CB105
    } else if n == 77 { 0x576E2F4C14BAC4FA
    } else if n == 78 { 0x57D264D25CA1D008
    } else if n == 79 { 0x5836B473AA57BCCA
    } else if n == 80 { 0x589C619094EDABFC
    } else if n == 81 { 0x5901F5BD7E3E66D5
    } else if n == 82 { 0x596702DAC9BFF3C1
    } else if n == 83 { 0x59CDD7B3BDA4F01E
    } else if n == 84 { 0x5A33958DF4743D94
    } else if n == 85 { 0x5A9A02A088AA61C9
    } else if n == 86 { 0x5B0179C3DBD279B3
    } else if n == 87 { 0x5B67C1863ED21D6F
    } else if n == 88 { 0x5BD0550C4B30743C
    } else if n == 89 { 0x5C36B645188F61A3
    } else if n == 90 { 0x5C9FF0512A89A14D
    } else if n == 91 { 0x5D06B4D9B43DD8AD
    } else if n == 92 { 0x5D7051FC798C73BC
    } else if n == 93 { 0x5DD7B722E0A0182D
    } else if n == 94 { 0x5E416A7D9CF591C1
    } else if n == 95 { 0x5EA9DA1274FC845A
    } else if n == 96 { 0x5F13638DD7BD6344
    } else if n == 97 { 0x5F7D62E2FAFB0A73
    } else if n == 98 { 0x5FE67FB5C8283400
    } else if n == 99 { 0x605166C698CF1838
    } else if n == 100 { 0x60BB30964EC395D8
    } else if n == 101 { 0x612574569A26543C
    } else if n == 102 { 0x619118B502D68B20
    } else if n == 103 { 0x61FB83C3509147E8
    } else if n == 104 { 0x62665B0EB1760A6C
    } else if n == 105 { 0x62D256B20D92D48D
    } else if n == 106 { 0x633E5F96E67B300A
    } else if n == 107 { 0x63A963E824AAFA28
    } else if n == 108 { 0x64156C4BDEF04312
    } else if n == 109 { 0x64823E389BD8991D
    } else if n == 110 { 0x64EF5AF14BDC472A
    } else if n == 111 { 0x655B30DD3FC905B6
    } else if n == 112 { 0x65C7CAC197CFE4FF
    } else if n == 113 { 0x663500FEE8058829
    } else if n == 114 { 0x66A2B4E306A4ED45
    } else if n == 115 { 0x6710CE83F7F82D2C
    } else if n == 116 { 0x677E764F3171D1E0
    } else if n == 117 { 0x67EBD824633209D7
    } else if n == 118 { 0x6859AB418B722112
    } else if n == 119 { 0x68C7DD36EFA41ABF
    } else if n == 120 { 0x69365F6380A9D913
    } else if n == 121 { 0x69A5262C0FA08F34
    } else if n == 122 { 0x6A142861FEE5087E
    } else if n == 123 { 0x6A835ECE2AF01629
    } else if n == 124 { 0x6AF2C3D7B9989578
    } else if n == 125 { 0x6B625340AB3F01F7
    } else if n == 126 { 0x6BD209F3A89205EF
    } else if n == 127 { 0x6C41E5DFC140E1E3
    } else if n == 128 { 0x6CB1E5DFC140E1E3
    } else if n == 129 { 0x6D2209AB80C363A7
    } else if n == 130 { 0x6D9251D22EC67136
    } else if n == 131 { 0x6E02BFBD1BDF17DD
    } else if n == 132 { 0x6E7355BB04BE109C
    } else if n == 133 { 0x6EE4171452ED7D42
    } else if n == 134 { 0x6F55082946D09F21
    } else if n == 135 { 0x6FC62E9B88B007D5
    } else if n == 136 { 0x70379185413B0852
    } else if n == 137 { 0x70A939C09FD12EE8
    } else if n == 138 { 0x711B3243AC4D8692
    } else if n == 139 { 0x718D88957D1C3023
    } else if n == 140 { 0x720026B1C06B6A53
    } else if n == 141 { 0x7271CA9FCDF6531F
    } else if n == 142 { 0x72E3BCC9487D4436
    } else if n == 143 { 0x73560CE8DEFBF234
    } else if n == 144 { 0x73C8CE85FADB707A
    } else if n == 145 { 0x743C19F3C62C956A
    } else if n == 146 { 0x74B006CD07056D36
    } else if n == 147 { 0x752267CF76103B6C
    } else if n == 148 { 0x75954807E082C4B5
    } else if n == 149 { 0x7608C5D92B5838FB
    } else if n == 150 { 0x767D07DA7ECB62C6
    } else if n == 151 { 0x76F11FA1E0C9F743
    } else if n == 152 { 0x776455903AEFD5A0
    } else if n == 153 { 0x77D84E466672AD59
    } else if n == 154 { 0x784D3E2CB341F88F
    } else if n == 155 { 0x78C1B4A51088F17F
    } else if n == 156 { 0x793594292C26E653
    } else if n == 157 { 0x79AA77BA8027B682
    } else if n == 158 { 0x7A2055E51B1882A4
    } else if n == 159 { 0x7A944AB297A87248
    } else if n == 160 { 0x7B095D5F3D928EDA
    } else if n == 161 { 0x7B7FE771CB7257AE
    } else if n == 162 { 0x7BF4307602BE5B7C
    } else if n == 163 { 0x7C69B5B6477E6880
    } else if n == 164 { 0x7CE07868C5CCFAF2
    } else if n == 165 { 0x7D553B370EFA3B7C
    } else if n == 166 { 0x7DCB88CB676C8525
    } else if n == 167 { 0x7E41F63CB077CADB
    } else if n == 168 { 0x7EB7932FA79D3A3F
    } else if n == 169 { 0x7F2F2054EB4D96E7
    } else if n == 170 { 0x7FA4AB7864418635
    } else { F64_INFINITY_BITS }
}

} // verus!
