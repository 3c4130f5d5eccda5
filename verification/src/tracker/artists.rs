//! The artist names of the MTGA client that Scryfall writes otherwise.

use vstd::prelude::*;
use crate::text::str_equal;

verus! {

/// The Scryfall spelling of a lowercase MTGA artist name: the known differences are listed,
/// any other name is the same in both databases.
pub open spec fn artist_alias(name: Seq<char>) -> Seq<char> {
    if name == "pascal blanche"@ {
        "pascal blanché"@
    }
    else if name == "angelo bortolini"@ {
        "ângelo bortolini"@
    }
    else if name == "l.a draws"@ {
        "la draws"@
    }
    else if name == "jihun"@ {
        "jihun lee"@
    }
    else if name == "justin & alexis hernandez"@ {
        "justin hernandez & alexis hernandez"@
    }
    else if name == "parente"@ {
        "paolo parente"@
    }
    else if name == "黒葉.k/clover.k"@ {
        "clover.k"@
    }
    else if name == "にじまあるく/nijimaarc"@ {
        "nijimaarc"@
    }
    else if name == "ライアンロロ / ryanroro"@ {
        "ryanroro"@
    }
    else if name == "蟻/ari"@ {
        "ari"@
    }
    else if name == "アジュール/azur"@ {
        "azur"@
    }
    else if name == "鴉羽凛燈 / rindo karasuba"@ {
        "rindo karasuba"@
    }
    else if name == "アマヤギ堂 / amayagido"@ {
        "amayagido"@
    }
    else if name == "桂福蔵/fukuzo katsura"@ {
        "fukuzo katsura"@
    }
    else if name == "kasia ‘kafis’ zielińska"@ {
        "kasia 'kafis' zielińska"@
    }
    else if name == "呀呀 / yaya"@ {
        "yaya"@
    }
    else if name == "寺田 克也/terada katsuya"@ {
        "terada katsuya"@
    }
    else if name == "ダイエクスト/dai-xt."@ {
        "dai-xt"@
    }
    else if name == "匈歌ハトリ / hatori kyoka"@ {
        "hatori kyoka"@
    }
    else if name == "竜徹/ryutetsu"@ {
        "ryutetsu"@
    }
    else if name == "鈴木康士 / d-suzuki"@ {
        "d-suzuki"@
    }
    else if name == "宮木一/miyaki hajime"@ {
        "miyaki hajime"@
    }
    else if name == "cardula"@ {
        "zoran cardula"@
    }
    else if name == "墨絵師「御歌頭」/ sumie okazu"@ {
        "sumie okazu"@
    }
    else if name == "えびら/ebila"@ {
        "ebila"@
    }
    else if name == "くっか / kukka"@ {
        "kukka"@
    }
    else if name == "雪代薫 / kaoru yukishiro"@ {
        "kaoru yukishiro"@
    }
    else if name == "タダ / tada"@ {
        "tada"@
    }
    else if name == "三好載克 / norikatsu miyoshi"@ {
        "norikatsu miyoshi"@
    }
    else if name == "えすてぃお/esuthio"@ {
        "esuthio"@
    }
    else if name == "タカヤマトシアキ/toshiaki takayama"@ {
        "toshiaki takayama"@
    }
    else if name == "ロルベイ/rorubei"@ {
        "rorubei"@
    }
    else if name == "yangyang / xiaji"@ {
        "yangygan & xiaji"@
    }
    else if name == "xiaji/yangyang"@ {
        "xiaji"@
    }
    else if name == "よーね/yo-ne"@ {
        "yo-ne"@
    }
    else if name == "近藤途轍/totetsu kondo"@ {
        "totetsu kondo"@
    }
    else if name == "森下直親/naochika morishita"@ {
        "naochika morishita"@
    }
    else if name == "ぴよ/piyo"@ {
        "piyo"@
    }
    else if name == "bartłomiej gaweł"@ {
        "bartlomiej gawel"@
    }
    else if name == "浮雲宇一 / uichi ukumo"@ {
        "uichi ukumo"@
    }
    else if name == "まじ/maji"@ {
        "maji"@
    }
    else if name == "v. szendrey (cashile)"@ {
        "vi szendrey (cashile)"@
    }
    else if name == "ゆのまち｡/yunomachi."@ {
        "yunomachi"@
    }
    else if name == "安達 洋介/yosuke adachi"@ {
        "yosuke adachi"@
    }
    else if name == "アオジマイコ / maiko aoji"@ {
        "maiko aoji"@
    }
    else if name == "アオジマイコ/aoji maiko"@ {
        "maiko aoji"@
    }
    else if name == "アマヤギ堂/amayagido"@ {
        "amayagido"@
    }
    else if name == "獣道/kemonomichi"@ {
        "kemonomichi"@
    }
    else if name == "ともひと/tomohito"@ {
        "tomohito"@
    }
    else if name == "ともひと / tomohito"@ {
        "tomohito"@
    }
    else if name == "七原しえ/shie nanahara"@ {
        "shie nanahara"@
    }
    else if name == "七原しえ / shie nanahara"@ {
        "shie nanahara"@
    }
    else if name == "william o’connor"@ {
        "william o'connor"@
    }
    else if name == "西野幸治 / koji nishino"@ {
        "koji nishino"@
    }
    else if name == "西野 幸治/koji nishino"@ {
        "koji nishino"@
    }
    else if name == "朋さくら / sakura tomo"@ {
        "sakura tomo"@
    }
    else if name == "士基軽太 / karuta shiki"@ {
        "karuta shiki"@
    }
    else if name == "中島 綾美 / ayami nakashima"@ {
        "ayami nakashima"@
    }
    else if name == "中島綾美/ayami nakashima"@ {
        "ayami nakashima"@
    }
    else if name == "とびはち / tobihachi"@ {
        "tobihachi"@
    }
    else if name == "山宗/sansyu"@ {
        "sansyu"@
    }
    else if name == "中坪宏太 / kota nakatsubo"@ {
        "kota nakatsubo"@
    }
    else if name == "中坪宏太/kota nakatsubo"@ {
        "kota nakatsubo"@
    }
    else if name == "マツモト ミツアキ/m.matsumoto"@ {
        "m.matsumoto"@
    }
    else if name == "百瀬寿 / hisashi momose"@ {
        "hisashi momose"@
    }
    else if name == "百瀬寿/hisashi momose"@ {
        "hisashi momose"@
    }
    else if name == "創-taro / so-taro"@ {
        "so-taro"@
    }
    else if name == "りんこ｡/rinco."@ {
        "rinco."@
    }
    else if name == "霧糺/kiritada"@ {
        "kiritada"@
    }
    else if name == "霧糺 /  kiritada"@ {
        "kiritada"@
    }
    else if name == "霧糺 / kiritada"@ {
        "kiritada"@
    }
    else if name == "parente & brian snoddy"@ {
        "paolo parente & brian snõddy"@
    }
    else if name == "海鵜げそ/umiu geso"@ {
        "umiu geso"@
    }
    else if name == "黒井ススム/susumu kuroi"@ {
        "susumu kuroi"@
    }
    else if name == "アオガチョウ/aogachou"@ {
        "aogachou"@
    }
    else if name == "アオガチョウ / aogachou"@ {
        "aogachou"@
    }
    else if name == "jenn ravenna"@ {
        "ravenna tran"@
    }
    else if name == "村山竜大/ryota murayama"@ {
        "ryota murayama"@
    }
    else if name == "藤ちょこ/fuzichoco"@ {
        "fuzichoco"@
    }
    else if name == "伊藤未生/misei ito"@ {
        "misei ito"@
    }
    else if name == "ナブランジャ/nablange"@ {
        "nablange"@
    }
    else if name == "原哲夫/hara tetsuo"@ {
        "tetsuo hara"@
    }
    else if name == "長乃 / nagano"@ {
        "nagano"@
    }
    else if name == "武内裕季 / yuhki takeuchi"@ {
        "yuhki takeuchi"@
    }
    else if name == "吉澤舞子 / maiko yoshizawa"@ {
        "maiko yoshizawa"@
    }
    else if name == "椿春雨/tubaki halsame"@ {
        "tubaki halsame"@
    }
    else if name == "マルオユキヒロ/yukihiro maruo"@ {
        "yukihiro maruo"@
    }
    else if name == "佐久間友香 / yuka sakuma"@ {
        "yuka sakuma"@
    }
    else if name == "石川健太/ishikawa kenta"@ {
        "ishikawa kenta"@
    }
    else if name == "出利/syutsuri"@ {
        "syutsuri"@
    }
    else if name == "п猫ｒ/penekor"@ {
        "penekor"@
    }
    else if name == "あんべ よしろう/yoshiro ambe"@ {
        "yoshiro ambe"@
    }
    else if name == "萩谷薫/kaoru hagiya"@ {
        "hagiya kaoru"@
    }
    else if name == "萩谷薫 / kaoru hagiya"@ {
        "hagiya kaoru"@
    }
    else if name == "dimitar"@ {
        "dimitar marinski"@
    }
    else if name == "寿多　浩 / hiro suda"@ {
        "hiro suda"@
    }
    else if name == "石黒亜矢子 / ayako ishiguro"@ {
        "ayako ishiguro"@
    }
    else if name == "jenn ravenna tran"@ {
        "ravenna tran"@
    }
    else if name == "volkan baga"@ {
        "volkan baǵa"@
    }
    else if name == "新川洋司/yoji shinkawa"@ {
        "yoji shinkawa"@
    }
    else if name == "弥生しろ / shiro　yayoi"@ {
        "shiro yayoi"@
    }
    else if name == "風間雷太/raita kazama"@ {
        "raita kazama"@
    }
    else if name == "ゾウノセ/zounose"@ {
        "zounose"@
    }
    else if name == "村上ヒサシ/murakami hisashi"@ {
        "murakami hisashi"@
    }
    else if name == "七片藍/ai nanahira"@ {
        "ai nanahira"@
    }
    else if name == "martina fačková"@ {
        "martina fackova"@
    }
    else if name == "仙田聡/satoru senda"@ {
        "satoru senda"@
    }
    else if name == "前河悠一/maekawa yuichi"@ {
        "maekawa yuichi"@
    }
    else if name == "茶魔魔 / yaomojun"@ {
        "yaomojun"@
    }
    else if name == "brian snoddy"@ {
        "brian snõddy"@
    }
    else if name == "壱子みるく亭/ichiko milk tei"@ {
        "ichiko milk tei"@
    }
    else if name == "三好奈緒/nao miyoshi"@ {
        "nao miyoshi"@
    }
    else if name == "やまだ六角/yamada rokkaku"@ {
        "yamada rokkaku"@
    }
    else if name == "tapi岡/tapioca"@ {
        "tapioca"@
    }
    else if name == "白井秀実/shirai hidemi"@ {
        "shirai hidemi"@
    }
    else if name == "夢子 / yumeko"@ {
        "yumeko"@
    }
    else if name == "奥田まがね / magane okuda"@ {
        "magane okuda"@
    }
    else if name == "クロサワテツ/tetsu kurosawa"@ {
        "tetsu kurosawa"@
    }
    else if name == "刀 彼方/katana canata"@ {
        "katana canata"@
    }
    else if name == "加藤 綾華/kato ayaka"@ {
        "kato ayaka"@
    }
    else if name == "ヨシヤ/yoshiya"@ {
        "yoshiya"@
    }
    else if name == "小島文美 / ayami kojima"@ {
        "ayami kojima"@
    }
    else if name == "justyna gil"@ {
        "justyna dura"@
    }
    else if name == "西木あれく/areku nishiki"@ {
        "areku nishiki"@
    }
    else if name == "中村エイト/nakamura8"@ {
        "nakamura8"@
    }
    else if name == "嘉弖苅悠介 / yusuke katekari"@ {
        "yusuke katekari"@
    }
    else if name == "瞑丸イヌチヨ/inuchiyo meimaru"@ {
        "inuchiyo meimaru"@
    }
    else {
        name
    }
}

/// Maps a lowercase MTGA artist name to the way the Scryfall database writes it.
pub fn map_lowercase_mtga_artist_name_to_scry(mtga_artist_name: &str) -> (r: &str)
    ensures
        r@ == artist_alias(mtga_artist_name@),
{
    if str_equal(mtga_artist_name, "pascal blanche") {
        return "pascal blanché";
    }
    if str_equal(mtga_artist_name, "angelo bortolini") {
        return "ângelo bortolini";
    }
    if str_equal(mtga_artist_name, "l.a draws") {
        return "la draws";
    }
    if str_equal(mtga_artist_name, "jihun") {
        return "jihun lee";
    }
    if str_equal(mtga_artist_name, "justin & alexis hernandez") {
        return "justin hernandez & alexis hernandez";
    }
    if str_equal(mtga_artist_name, "parente") {
        return "paolo parente";
    }
    if str_equal(mtga_artist_name, "黒葉.k/clover.k") {
        return "clover.k";
    }
    if str_equal(mtga_artist_name, "にじまあるく/nijimaarc") {
        return "nijimaarc";
    }
    if str_equal(mtga_artist_name, "ライアンロロ / ryanroro") {
        return "ryanroro";
    }
    if str_equal(mtga_artist_name, "蟻/ari") {
        return "ari";
    }
    if str_equal(mtga_artist_name, "アジュール/azur") {
        return "azur";
    }
    if str_equal(mtga_artist_name, "鴉羽凛燈 / rindo karasuba") {
        return "rindo karasuba";
    }
    if str_equal(mtga_artist_name, "アマヤギ堂 / amayagido") {
        return "amayagido";
    }
    if str_equal(mtga_artist_name, "桂福蔵/fukuzo katsura") {
        return "fukuzo katsura";
    }
    if str_equal(mtga_artist_name, "kasia ‘kafis’ zielińska") {
        return "kasia 'kafis' zielińska";
    }
    if str_equal(mtga_artist_name, "呀呀 / yaya") {
        return "yaya";
    }
    if str_equal(mtga_artist_name, "寺田 克也/terada katsuya") {
        return "terada katsuya";
    }
    if str_equal(mtga_artist_name, "ダイエクスト/dai-xt.") {
        return "dai-xt";
    }
    if str_equal(mtga_artist_name, "匈歌ハトリ / hatori kyoka") {
        return "hatori kyoka";
    }
    if str_equal(mtga_artist_name, "竜徹/ryutetsu") {
        return "ryutetsu";
    }
    if str_equal(mtga_artist_name, "鈴木康士 / d-suzuki") {
        return "d-suzuki";
    }
    if str_equal(mtga_artist_name, "宮木一/miyaki hajime") {
        return "miyaki hajime";
    }
    if str_equal(mtga_artist_name, "cardula") {
        return "zoran cardula";
    }
    if str_equal(mtga_artist_name, "墨絵師「御歌頭」/ sumie okazu") {
        return "sumie okazu";
    }
    if str_equal(mtga_artist_name, "えびら/ebila") {
        return "ebila";
    }
    if str_equal(mtga_artist_name, "くっか / kukka") {
        return "kukka";
    }
    if str_equal(mtga_artist_name, "雪代薫 / kaoru yukishiro") {
        return "kaoru yukishiro";
    }
    if str_equal(mtga_artist_name, "タダ / tada") {
        return "tada";
    }
    if str_equal(mtga_artist_name, "三好載克 / norikatsu miyoshi") {
        return "norikatsu miyoshi";
    }
    if str_equal(mtga_artist_name, "えすてぃお/esuthio") {
        return "esuthio";
    }
    if str_equal(mtga_artist_name, "タカヤマトシアキ/toshiaki takayama") {
        return "toshiaki takayama";
    }
    if str_equal(mtga_artist_name, "ロルベイ/rorubei") {
        return "rorubei";
    }
    if str_equal(mtga_artist_name, "yangyang / xiaji") {
        return "yangygan & xiaji";
    }
    if str_equal(mtga_artist_name, "xiaji/yangyang") {
        return "xiaji";
    }
    if str_equal(mtga_artist_name, "よーね/yo-ne") {
        return "yo-ne";
    }
    if str_equal(mtga_artist_name, "近藤途轍/totetsu kondo") {
        return "totetsu kondo";
    }
    if str_equal(mtga_artist_name, "森下直親/naochika morishita") {
        return "naochika morishita";
    }
    if str_equal(mtga_artist_name, "ぴよ/piyo") {
        return "piyo";
    }
    if str_equal(mtga_artist_name, "bartłomiej gaweł") {
        return "bartlomiej gawel";
    }
    if str_equal(mtga_artist_name, "浮雲宇一 / uichi ukumo") {
        return "uichi ukumo";
    }
    if str_equal(mtga_artist_name, "まじ/maji") {
        return "maji";
    }
    if str_equal(mtga_artist_name, "v. szendrey (cashile)") {
        return "vi szendrey (cashile)";
    }
    if str_equal(mtga_artist_name, "ゆのまち｡/yunomachi.") {
        return "yunomachi";
    }
    if str_equal(mtga_artist_name, "安達 洋介/yosuke adachi") {
        return "yosuke adachi";
    }
    if str_equal(mtga_artist_name, "アオジマイコ / maiko aoji") {
        return "maiko aoji";
    }
    if str_equal(mtga_artist_name, "アオジマイコ/aoji maiko") {
        return "maiko aoji";
    }
    if str_equal(mtga_artist_name, "アマヤギ堂/amayagido") {
        return "amayagido";
    }
    if str_equal(mtga_artist_name, "獣道/kemonomichi") {
        return "kemonomichi";
    }
    if str_equal(mtga_artist_name, "ともひと/tomohito") {
        return "tomohito";
    }
    if str_equal(mtga_artist_name, "ともひと / tomohito") {
        return "tomohito";
    }
    if str_equal(mtga_artist_name, "七原しえ/shie nanahara") {
        return "shie nanahara";
    }
    if str_equal(mtga_artist_name, "七原しえ / shie nanahara") {
        return "shie nanahara";
    }
    if str_equal(mtga_artist_name, "william o’connor") {
        return "william o'connor";
    }
    if str_equal(mtga_artist_name, "西野幸治 / koji nishino") {
        return "koji nishino";
    }
    if str_equal(mtga_artist_name, "西野 幸治/koji nishino") {
        return "koji nishino";
    }
    if str_equal(mtga_artist_name, "朋さくら / sakura tomo") {
        return "sakura tomo";
    }
    if str_equal(mtga_artist_name, "士基軽太 / karuta shiki") {
        return "karuta shiki";
    }
    if str_equal(mtga_artist_name, "中島 綾美 / ayami nakashima") {
        return "ayami nakashima";
    }
    if str_equal(mtga_artist_name, "中島綾美/ayami nakashima") {
        return "ayami nakashima";
    }
    if str_equal(mtga_artist_name, "とびはち / tobihachi") {
        return "tobihachi";
    }
    if str_equal(mtga_artist_name, "山宗/sansyu") {
        return "sansyu";
    }
    if str_equal(mtga_artist_name, "中坪宏太 / kota nakatsubo") {
        return "kota nakatsubo";
    }
    if str_equal(mtga_artist_name, "中坪宏太/kota nakatsubo") {
        return "kota nakatsubo";
    }
    if str_equal(mtga_artist_name, "マツモト ミツアキ/m.matsumoto") {
        return "m.matsumoto";
    }
    if str_equal(mtga_artist_name, "百瀬寿 / hisashi momose") {
        return "hisashi momose";
    }
    if str_equal(mtga_artist_name, "百瀬寿/hisashi momose") {
        return "hisashi momose";
    }
    if str_equal(mtga_artist_name, "創-taro / so-taro") {
        return "so-taro";
    }
    if str_equal(mtga_artist_name, "りんこ｡/rinco.") {
        return "rinco.";
    }
    if str_equal(mtga_artist_name, "霧糺/kiritada") {
        return "kiritada";
    }
    if str_equal(mtga_artist_name, "霧糺 /  kiritada") {
        return "kiritada";
    }
    if str_equal(mtga_artist_name, "霧糺 / kiritada") {
        return "kiritada";
    }
    if str_equal(mtga_artist_name, "parente & brian snoddy") {
        return "paolo parente & brian snõddy";
    }
    if str_equal(mtga_artist_name, "海鵜げそ/umiu geso") {
        return "umiu geso";
    }
    if str_equal(mtga_artist_name, "黒井ススム/susumu kuroi") {
        return "susumu kuroi";
    }
    if str_equal(mtga_artist_name, "アオガチョウ/aogachou") {
        return "aogachou";
    }
    if str_equal(mtga_artist_name, "アオガチョウ / aogachou") {
        return "aogachou";
    }
    if str_equal(mtga_artist_name, "jenn ravenna") {
        return "ravenna tran";
    }
    if str_equal(mtga_artist_name, "村山竜大/ryota murayama") {
        return "ryota murayama";
    }
    if str_equal(mtga_artist_name, "藤ちょこ/fuzichoco") {
        return "fuzichoco";
    }
    if str_equal(mtga_artist_name, "伊藤未生/misei ito") {
        return "misei ito";
    }
    if str_equal(mtga_artist_name, "ナブランジャ/nablange") {
        return "nablange";
    }
    if str_equal(mtga_artist_name, "原哲夫/hara tetsuo") {
        return "tetsuo hara";
    }
    if str_equal(mtga_artist_name, "長乃 / nagano") {
        return "nagano";
    }
    if str_equal(mtga_artist_name, "武内裕季 / yuhki takeuchi") {
        return "yuhki takeuchi";
    }
    if str_equal(mtga_artist_name, "吉澤舞子 / maiko yoshizawa") {
        return "maiko yoshizawa";
    }
    if str_equal(mtga_artist_name, "椿春雨/tubaki halsame") {
        return "tubaki halsame";
    }
    if str_equal(mtga_artist_name, "マルオユキヒロ/yukihiro maruo") {
        return "yukihiro maruo";
    }
    if str_equal(mtga_artist_name, "佐久間友香 / yuka sakuma") {
        return "yuka sakuma";
    }
    if str_equal(mtga_artist_name, "石川健太/ishikawa kenta") {
        return "ishikawa kenta";
    }
    if str_equal(mtga_artist_name, "出利/syutsuri") {
        return "syutsuri";
    }
    if str_equal(mtga_artist_name, "п猫ｒ/penekor") {
        return "penekor";
    }
    if str_equal(mtga_artist_name, "あんべ よしろう/yoshiro ambe") {
        return "yoshiro ambe";
    }
    if str_equal(mtga_artist_name, "萩谷薫/kaoru hagiya") {
        return "hagiya kaoru";
    }
    if str_equal(mtga_artist_name, "萩谷薫 / kaoru hagiya") {
        return "hagiya kaoru";
    }
    if str_equal(mtga_artist_name, "dimitar") {
        return "dimitar marinski";
    }
    if str_equal(mtga_artist_name, "寿多　浩 / hiro suda") {
        return "hiro suda";
    }
    if str_equal(mtga_artist_name, "石黒亜矢子 / ayako ishiguro") {
        return "ayako ishiguro";
    }
    if str_equal(mtga_artist_name, "jenn ravenna tran") {
        return "ravenna tran";
    }
    if str_equal(mtga_artist_name, "volkan baga") {
        return "volkan baǵa";
    }
    if str_equal(mtga_artist_name, "新川洋司/yoji shinkawa") {
        return "yoji shinkawa";
    }
    if str_equal(mtga_artist_name, "弥生しろ / shiro　yayoi") {
        return "shiro yayoi";
    }
    if str_equal(mtga_artist_name, "風間雷太/raita kazama") {
        return "raita kazama";
    }
    if str_equal(mtga_artist_name, "ゾウノセ/zounose") {
        return "zounose";
    }
    if str_equal(mtga_artist_name, "村上ヒサシ/murakami hisashi") {
        return "murakami hisashi";
    }
    if str_equal(mtga_artist_name, "七片藍/ai nanahira") {
        return "ai nanahira";
    }
    if str_equal(mtga_artist_name, "martina fačková") {
        return "martina fackova";
    }
    if str_equal(mtga_artist_name, "仙田聡/satoru senda") {
        return "satoru senda";
    }
    if str_equal(mtga_artist_name, "前河悠一/maekawa yuichi") {
        return "maekawa yuichi";
    }
    if str_equal(mtga_artist_name, "茶魔魔 / yaomojun") {
        return "yaomojun";
    }
    if str_equal(mtga_artist_name, "brian snoddy") {
        return "brian snõddy";
    }
    if str_equal(mtga_artist_name, "壱子みるく亭/ichiko milk tei") {
        return "ichiko milk tei";
    }
    if str_equal(mtga_artist_name, "三好奈緒/nao miyoshi") {
        return "nao miyoshi";
    }
    if str_equal(mtga_artist_name, "やまだ六角/yamada rokkaku") {
        return "yamada rokkaku";
    }
    if str_equal(mtga_artist_name, "tapi岡/tapioca") {
        return "tapioca";
    }
    if str_equal(mtga_artist_name, "白井秀実/shirai hidemi") {
        return "shirai hidemi";
    }
    if str_equal(mtga_artist_name, "夢子 / yumeko") {
        return "yumeko";
    }
    if str_equal(mtga_artist_name, "奥田まがね / magane okuda") {
        return "magane okuda";
    }
    if str_equal(mtga_artist_name, "クロサワテツ/tetsu kurosawa") {
        return "tetsu kurosawa";
    }
    if str_equal(mtga_artist_name, "刀 彼方/katana canata") {
        return "katana canata";
    }
    if str_equal(mtga_artist_name, "加藤 綾華/kato ayaka") {
        return "kato ayaka";
    }
    if str_equal(mtga_artist_name, "ヨシヤ/yoshiya") {
        return "yoshiya";
    }
    if str_equal(mtga_artist_name, "小島文美 / ayami kojima") {
        return "ayami kojima";
    }
    if str_equal(mtga_artist_name, "justyna gil") {
        return "justyna dura";
    }
    if str_equal(mtga_artist_name, "西木あれく/areku nishiki") {
        return "areku nishiki";
    }
    if str_equal(mtga_artist_name, "中村エイト/nakamura8") {
        return "nakamura8";
    }
    if str_equal(mtga_artist_name, "嘉弖苅悠介 / yusuke katekari") {
        return "yusuke katekari";
    }
    if str_equal(mtga_artist_name, "瞑丸イヌチヨ/inuchiyo meimaru") {
        return "inuchiyo meimaru";
    }
    mtga_artist_name
}

/// Mapping a name twice gives what mapping it once gives: no Scryfall spelling that the table
/// gives is itself one of the MTGA names it lists, so a mapped name is left as it is.
pub proof fn lemma_artist_alias_idempotent(name: Seq<char>)
    ensures
        artist_alias(artist_alias(name)) == artist_alias(name),
{
    lemma_artist_table();
}

/// The table of spellings: each MTGA artist name it lists is mapped to its Scryfall spelling,
/// and each Scryfall spelling it gives is left as it is (no spelling is itself a listed MTGA
/// name). The names are told apart by their length, their first or last character, or else a
/// character named here.
pub proof fn lemma_artist_table()
    ensures
        artist_alias("pascal blanche"@) == "pascal blanché"@,
        artist_alias("angelo bortolini"@) == "ângelo bortolini"@,
        artist_alias("l.a draws"@) == "la draws"@,
        artist_alias("jihun"@) == "jihun lee"@,
        artist_alias("justin & alexis hernandez"@) == "justin hernandez & alexis hernandez"@,
        artist_alias("parente"@) == "paolo parente"@,
        artist_alias("黒葉.k/clover.k"@) == "clover.k"@,
        artist_alias("にじまあるく/nijimaarc"@) == "nijimaarc"@,
        artist_alias("ライアンロロ / ryanroro"@) == "ryanroro"@,
        artist_alias("蟻/ari"@) == "ari"@,
        artist_alias("アジュール/azur"@) == "azur"@,
        artist_alias("鴉羽凛燈 / rindo karasuba"@) == "rindo karasuba"@,
        artist_alias("アマヤギ堂 / amayagido"@) == "amayagido"@,
        artist_alias("桂福蔵/fukuzo katsura"@) == "fukuzo katsura"@,
        artist_alias("kasia ‘kafis’ zielińska"@) == "kasia 'kafis' zielińska"@,
        artist_alias("呀呀 / yaya"@) == "yaya"@,
        artist_alias("寺田 克也/terada katsuya"@) == "terada katsuya"@,
        artist_alias("ダイエクスト/dai-xt."@) == "dai-xt"@,
        artist_alias("匈歌ハトリ / hatori kyoka"@) == "hatori kyoka"@,
        artist_alias("竜徹/ryutetsu"@) == "ryutetsu"@,
        artist_alias("鈴木康士 / d-suzuki"@) == "d-suzuki"@,
        artist_alias("宮木一/miyaki hajime"@) == "miyaki hajime"@,
        artist_alias("cardula"@) == "zoran cardula"@,
        artist_alias("墨絵師「御歌頭」/ sumie okazu"@) == "sumie okazu"@,
        artist_alias("えびら/ebila"@) == "ebila"@,
        artist_alias("くっか / kukka"@) == "kukka"@,
        artist_alias("雪代薫 / kaoru yukishiro"@) == "kaoru yukishiro"@,
        artist_alias("タダ / tada"@) == "tada"@,
        artist_alias("三好載克 / norikatsu miyoshi"@) == "norikatsu miyoshi"@,
        artist_alias("えすてぃお/esuthio"@) == "esuthio"@,
        artist_alias("タカヤマトシアキ/toshiaki takayama"@) == "toshiaki takayama"@,
        artist_alias("ロルベイ/rorubei"@) == "rorubei"@,
        artist_alias("yangyang / xiaji"@) == "yangygan & xiaji"@,
        artist_alias("xiaji/yangyang"@) == "xiaji"@,
        artist_alias("よーね/yo-ne"@) == "yo-ne"@,
        artist_alias("近藤途轍/totetsu kondo"@) == "totetsu kondo"@,
        artist_alias("森下直親/naochika morishita"@) == "naochika morishita"@,
        artist_alias("ぴよ/piyo"@) == "piyo"@,
        artist_alias("bartłomiej gaweł"@) == "bartlomiej gawel"@,
        artist_alias("浮雲宇一 / uichi ukumo"@) == "uichi ukumo"@,
        artist_alias("まじ/maji"@) == "maji"@,
        artist_alias("v. szendrey (cashile)"@) == "vi szendrey (cashile)"@,
        artist_alias("ゆのまち｡/yunomachi."@) == "yunomachi"@,
        artist_alias("安達 洋介/yosuke adachi"@) == "yosuke adachi"@,
        artist_alias("アオジマイコ / maiko aoji"@) == "maiko aoji"@,
        artist_alias("アオジマイコ/aoji maiko"@) == "maiko aoji"@,
        artist_alias("アマヤギ堂/amayagido"@) == "amayagido"@,
        artist_alias("獣道/kemonomichi"@) == "kemonomichi"@,
        artist_alias("ともひと/tomohito"@) == "tomohito"@,
        artist_alias("ともひと / tomohito"@) == "tomohito"@,
        artist_alias("七原しえ/shie nanahara"@) == "shie nanahara"@,
        artist_alias("七原しえ / shie nanahara"@) == "shie nanahara"@,
        artist_alias("william o’connor"@) == "william o'connor"@,
        artist_alias("西野幸治 / koji nishino"@) == "koji nishino"@,
        artist_alias("西野 幸治/koji nishino"@) == "koji nishino"@,
        artist_alias("朋さくら / sakura tomo"@) == "sakura tomo"@,
        artist_alias("士基軽太 / karuta shiki"@) == "karuta shiki"@,
        artist_alias("中島 綾美 / ayami nakashima"@) == "ayami nakashima"@,
        artist_alias("中島綾美/ayami nakashima"@) == "ayami nakashima"@,
        artist_alias("とびはち / tobihachi"@) == "tobihachi"@,
        artist_alias("山宗/sansyu"@) == "sansyu"@,
        artist_alias("中坪宏太 / kota nakatsubo"@) == "kota nakatsubo"@,
        artist_alias("中坪宏太/kota nakatsubo"@) == "kota nakatsubo"@,
        artist_alias("マツモト ミツアキ/m.matsumoto"@) == "m.matsumoto"@,
        artist_alias("百瀬寿 / hisashi momose"@) == "hisashi momose"@,
        artist_alias("百瀬寿/hisashi momose"@) == "hisashi momose"@,
        artist_alias("創-taro / so-taro"@) == "so-taro"@,
        artist_alias("りんこ｡/rinco."@) == "rinco."@,
        artist_alias("霧糺/kiritada"@) == "kiritada"@,
        artist_alias("霧糺 /  kiritada"@) == "kiritada"@,
        artist_alias("霧糺 / kiritada"@) == "kiritada"@,
        artist_alias("parente & brian snoddy"@) == "paolo parente & brian snõddy"@,
        artist_alias("海鵜げそ/umiu geso"@) == "umiu geso"@,
        artist_alias("黒井ススム/susumu kuroi"@) == "susumu kuroi"@,
        artist_alias("アオガチョウ/aogachou"@) == "aogachou"@,
        artist_alias("アオガチョウ / aogachou"@) == "aogachou"@,
        artist_alias("jenn ravenna"@) == "ravenna tran"@,
        artist_alias("村山竜大/ryota murayama"@) == "ryota murayama"@,
        artist_alias("藤ちょこ/fuzichoco"@) == "fuzichoco"@,
        artist_alias("伊藤未生/misei ito"@) == "misei ito"@,
        artist_alias("ナブランジャ/nablange"@) == "nablange"@,
        artist_alias("原哲夫/hara tetsuo"@) == "tetsuo hara"@,
        artist_alias("長乃 / nagano"@) == "nagano"@,
        artist_alias("武内裕季 / yuhki takeuchi"@) == "yuhki takeuchi"@,
        artist_alias("吉澤舞子 / maiko yoshizawa"@) == "maiko yoshizawa"@,
        artist_alias("椿春雨/tubaki halsame"@) == "tubaki halsame"@,
        artist_alias("マルオユキヒロ/yukihiro maruo"@) == "yukihiro maruo"@,
        artist_alias("佐久間友香 / yuka sakuma"@) == "yuka sakuma"@,
        artist_alias("石川健太/ishikawa kenta"@) == "ishikawa kenta"@,
        artist_alias("出利/syutsuri"@) == "syutsuri"@,
        artist_alias("п猫ｒ/penekor"@) == "penekor"@,
        artist_alias("あんべ よしろう/yoshiro ambe"@) == "yoshiro ambe"@,
        artist_alias("萩谷薫/kaoru hagiya"@) == "hagiya kaoru"@,
        artist_alias("萩谷薫 / kaoru hagiya"@) == "hagiya kaoru"@,
        artist_alias("dimitar"@) == "dimitar marinski"@,
        artist_alias("寿多　浩 / hiro suda"@) == "hiro suda"@,
        artist_alias("石黒亜矢子 / ayako ishiguro"@) == "ayako ishiguro"@,
        artist_alias("jenn ravenna tran"@) == "ravenna tran"@,
        artist_alias("volkan baga"@) == "volkan baǵa"@,
        artist_alias("新川洋司/yoji shinkawa"@) == "yoji shinkawa"@,
        artist_alias("弥生しろ / shiro　yayoi"@) == "shiro yayoi"@,
        artist_alias("風間雷太/raita kazama"@) == "raita kazama"@,
        artist_alias("ゾウノセ/zounose"@) == "zounose"@,
        artist_alias("村上ヒサシ/murakami hisashi"@) == "murakami hisashi"@,
        artist_alias("七片藍/ai nanahira"@) == "ai nanahira"@,
        artist_alias("martina fačková"@) == "martina fackova"@,
        artist_alias("仙田聡/satoru senda"@) == "satoru senda"@,
        artist_alias("前河悠一/maekawa yuichi"@) == "maekawa yuichi"@,
        artist_alias("茶魔魔 / yaomojun"@) == "yaomojun"@,
        artist_alias("brian snoddy"@) == "brian snõddy"@,
        artist_alias("壱子みるく亭/ichiko milk tei"@) == "ichiko milk tei"@,
        artist_alias("三好奈緒/nao miyoshi"@) == "nao miyoshi"@,
        artist_alias("やまだ六角/yamada rokkaku"@) == "yamada rokkaku"@,
        artist_alias("tapi岡/tapioca"@) == "tapioca"@,
        artist_alias("白井秀実/shirai hidemi"@) == "shirai hidemi"@,
        artist_alias("夢子 / yumeko"@) == "yumeko"@,
        artist_alias("奥田まがね / magane okuda"@) == "magane okuda"@,
        artist_alias("クロサワテツ/tetsu kurosawa"@) == "tetsu kurosawa"@,
        artist_alias("刀 彼方/katana canata"@) == "katana canata"@,
        artist_alias("加藤 綾華/kato ayaka"@) == "kato ayaka"@,
        artist_alias("ヨシヤ/yoshiya"@) == "yoshiya"@,
        artist_alias("小島文美 / ayami kojima"@) == "ayami kojima"@,
        artist_alias("justyna gil"@) == "justyna dura"@,
        artist_alias("西木あれく/areku nishiki"@) == "areku nishiki"@,
        artist_alias("中村エイト/nakamura8"@) == "nakamura8"@,
        artist_alias("嘉弖苅悠介 / yusuke katekari"@) == "yusuke katekari"@,
        artist_alias("瞑丸イヌチヨ/inuchiyo meimaru"@) == "inuchiyo meimaru"@,
        artist_alias("pascal blanché"@) == "pascal blanché"@,
        artist_alias("ângelo bortolini"@) == "ângelo bortolini"@,
        artist_alias("la draws"@) == "la draws"@,
        artist_alias("jihun lee"@) == "jihun lee"@,
        artist_alias("justin hernandez & alexis hernandez"@) == "justin hernandez & alexis hernandez"@,
        artist_alias("paolo parente"@) == "paolo parente"@,
        artist_alias("clover.k"@) == "clover.k"@,
        artist_alias("nijimaarc"@) == "nijimaarc"@,
        artist_alias("ryanroro"@) == "ryanroro"@,
        artist_alias("ari"@) == "ari"@,
        artist_alias("azur"@) == "azur"@,
        artist_alias("rindo karasuba"@) == "rindo karasuba"@,
        artist_alias("amayagido"@) == "amayagido"@,
        artist_alias("fukuzo katsura"@) == "fukuzo katsura"@,
        artist_alias("kasia 'kafis' zielińska"@) == "kasia 'kafis' zielińska"@,
        artist_alias("yaya"@) == "yaya"@,
        artist_alias("terada katsuya"@) == "terada katsuya"@,
        artist_alias("dai-xt"@) == "dai-xt"@,
        artist_alias("hatori kyoka"@) == "hatori kyoka"@,
        artist_alias("ryutetsu"@) == "ryutetsu"@,
        artist_alias("d-suzuki"@) == "d-suzuki"@,
        artist_alias("miyaki hajime"@) == "miyaki hajime"@,
        artist_alias("zoran cardula"@) == "zoran cardula"@,
        artist_alias("sumie okazu"@) == "sumie okazu"@,
        artist_alias("ebila"@) == "ebila"@,
        artist_alias("kukka"@) == "kukka"@,
        artist_alias("kaoru yukishiro"@) == "kaoru yukishiro"@,
        artist_alias("tada"@) == "tada"@,
        artist_alias("norikatsu miyoshi"@) == "norikatsu miyoshi"@,
        artist_alias("esuthio"@) == "esuthio"@,
        artist_alias("toshiaki takayama"@) == "toshiaki takayama"@,
        artist_alias("rorubei"@) == "rorubei"@,
        artist_alias("yangygan & xiaji"@) == "yangygan & xiaji"@,
        artist_alias("xiaji"@) == "xiaji"@,
        artist_alias("yo-ne"@) == "yo-ne"@,
        artist_alias("totetsu kondo"@) == "totetsu kondo"@,
        artist_alias("naochika morishita"@) == "naochika morishita"@,
        artist_alias("piyo"@) == "piyo"@,
        artist_alias("bartlomiej gawel"@) == "bartlomiej gawel"@,
        artist_alias("uichi ukumo"@) == "uichi ukumo"@,
        artist_alias("maji"@) == "maji"@,
        artist_alias("vi szendrey (cashile)"@) == "vi szendrey (cashile)"@,
        artist_alias("yunomachi"@) == "yunomachi"@,
        artist_alias("yosuke adachi"@) == "yosuke adachi"@,
        artist_alias("maiko aoji"@) == "maiko aoji"@,
        artist_alias("maiko aoji"@) == "maiko aoji"@,
        artist_alias("amayagido"@) == "amayagido"@,
        artist_alias("kemonomichi"@) == "kemonomichi"@,
        artist_alias("tomohito"@) == "tomohito"@,
        artist_alias("tomohito"@) == "tomohito"@,
        artist_alias("shie nanahara"@) == "shie nanahara"@,
        artist_alias("shie nanahara"@) == "shie nanahara"@,
        artist_alias("william o'connor"@) == "william o'connor"@,
        artist_alias("koji nishino"@) == "koji nishino"@,
        artist_alias("koji nishino"@) == "koji nishino"@,
        artist_alias("sakura tomo"@) == "sakura tomo"@,
        artist_alias("karuta shiki"@) == "karuta shiki"@,
        artist_alias("ayami nakashima"@) == "ayami nakashima"@,
        artist_alias("ayami nakashima"@) == "ayami nakashima"@,
        artist_alias("tobihachi"@) == "tobihachi"@,
        artist_alias("sansyu"@) == "sansyu"@,
        artist_alias("kota nakatsubo"@) == "kota nakatsubo"@,
        artist_alias("kota nakatsubo"@) == "kota nakatsubo"@,
        artist_alias("m.matsumoto"@) == "m.matsumoto"@,
        artist_alias("hisashi momose"@) == "hisashi momose"@,
        artist_alias("hisashi momose"@) == "hisashi momose"@,
        artist_alias("so-taro"@) == "so-taro"@,
        artist_alias("rinco."@) == "rinco."@,
        artist_alias("kiritada"@) == "kiritada"@,
        artist_alias("kiritada"@) == "kiritada"@,
        artist_alias("kiritada"@) == "kiritada"@,
        artist_alias("paolo parente & brian snõddy"@) == "paolo parente & brian snõddy"@,
        artist_alias("umiu geso"@) == "umiu geso"@,
        artist_alias("susumu kuroi"@) == "susumu kuroi"@,
        artist_alias("aogachou"@) == "aogachou"@,
        artist_alias("aogachou"@) == "aogachou"@,
        artist_alias("ravenna tran"@) == "ravenna tran"@,
        artist_alias("ryota murayama"@) == "ryota murayama"@,
        artist_alias("fuzichoco"@) == "fuzichoco"@,
        artist_alias("misei ito"@) == "misei ito"@,
        artist_alias("nablange"@) == "nablange"@,
        artist_alias("tetsuo hara"@) == "tetsuo hara"@,
        artist_alias("nagano"@) == "nagano"@,
        artist_alias("yuhki takeuchi"@) == "yuhki takeuchi"@,
        artist_alias("maiko yoshizawa"@) == "maiko yoshizawa"@,
        artist_alias("tubaki halsame"@) == "tubaki halsame"@,
        artist_alias("yukihiro maruo"@) == "yukihiro maruo"@,
        artist_alias("yuka sakuma"@) == "yuka sakuma"@,
        artist_alias("ishikawa kenta"@) == "ishikawa kenta"@,
        artist_alias("syutsuri"@) == "syutsuri"@,
        artist_alias("penekor"@) == "penekor"@,
        artist_alias("yoshiro ambe"@) == "yoshiro ambe"@,
        artist_alias("hagiya kaoru"@) == "hagiya kaoru"@,
        artist_alias("hagiya kaoru"@) == "hagiya kaoru"@,
        artist_alias("dimitar marinski"@) == "dimitar marinski"@,
        artist_alias("hiro suda"@) == "hiro suda"@,
        artist_alias("ayako ishiguro"@) == "ayako ishiguro"@,
        artist_alias("ravenna tran"@) == "ravenna tran"@,
        artist_alias("volkan baǵa"@) == "volkan baǵa"@,
        artist_alias("yoji shinkawa"@) == "yoji shinkawa"@,
        artist_alias("shiro yayoi"@) == "shiro yayoi"@,
        artist_alias("raita kazama"@) == "raita kazama"@,
        artist_alias("zounose"@) == "zounose"@,
        artist_alias("murakami hisashi"@) == "murakami hisashi"@,
        artist_alias("ai nanahira"@) == "ai nanahira"@,
        artist_alias("martina fackova"@) == "martina fackova"@,
        artist_alias("satoru senda"@) == "satoru senda"@,
        artist_alias("maekawa yuichi"@) == "maekawa yuichi"@,
        artist_alias("yaomojun"@) == "yaomojun"@,
        artist_alias("brian snõddy"@) == "brian snõddy"@,
        artist_alias("ichiko milk tei"@) == "ichiko milk tei"@,
        artist_alias("nao miyoshi"@) == "nao miyoshi"@,
        artist_alias("yamada rokkaku"@) == "yamada rokkaku"@,
        artist_alias("tapioca"@) == "tapioca"@,
        artist_alias("shirai hidemi"@) == "shirai hidemi"@,
        artist_alias("yumeko"@) == "yumeko"@,
        artist_alias("magane okuda"@) == "magane okuda"@,
        artist_alias("tetsu kurosawa"@) == "tetsu kurosawa"@,
        artist_alias("katana canata"@) == "katana canata"@,
        artist_alias("kato ayaka"@) == "kato ayaka"@,
        artist_alias("yoshiya"@) == "yoshiya"@,
        artist_alias("ayami kojima"@) == "ayami kojima"@,
        artist_alias("justyna dura"@) == "justyna dura"@,
        artist_alias("areku nishiki"@) == "areku nishiki"@,
        artist_alias("nakamura8"@) == "nakamura8"@,
        artist_alias("yusuke katekari"@) == "yusuke katekari"@,
        artist_alias("inuchiyo meimaru"@) == "inuchiyo meimaru"@,
{
    reveal_strlit("pascal blanche");
    reveal_strlit("angelo bortolini");
    reveal_strlit("l.a draws");
    reveal_strlit("jihun");
    reveal_strlit("justin & alexis hernandez");
    reveal_strlit("parente");
    reveal_strlit("黒葉.k/clover.k");
    reveal_strlit("にじまあるく/nijimaarc");
    reveal_strlit("ライアンロロ / ryanroro");
    reveal_strlit("蟻/ari");
    reveal_strlit("アジュール/azur");
    reveal_strlit("鴉羽凛燈 / rindo karasuba");
    reveal_strlit("アマヤギ堂 / amayagido");
    reveal_strlit("桂福蔵/fukuzo katsura");
    reveal_strlit("kasia ‘kafis’ zielińska");
    reveal_strlit("呀呀 / yaya");
    reveal_strlit("寺田 克也/terada katsuya");
    reveal_strlit("ダイエクスト/dai-xt.");
    reveal_strlit("匈歌ハトリ / hatori kyoka");
    reveal_strlit("竜徹/ryutetsu");
    reveal_strlit("鈴木康士 / d-suzuki");
    reveal_strlit("宮木一/miyaki hajime");
    reveal_strlit("cardula");
    reveal_strlit("墨絵師「御歌頭」/ sumie okazu");
    reveal_strlit("えびら/ebila");
    reveal_strlit("くっか / kukka");
    reveal_strlit("雪代薫 / kaoru yukishiro");
    reveal_strlit("タダ / tada");
    reveal_strlit("三好載克 / norikatsu miyoshi");
    reveal_strlit("えすてぃお/esuthio");
    reveal_strlit("タカヤマトシアキ/toshiaki takayama");
    reveal_strlit("ロルベイ/rorubei");
    reveal_strlit("yangyang / xiaji");
    reveal_strlit("xiaji/yangyang");
    reveal_strlit("よーね/yo-ne");
    reveal_strlit("近藤途轍/totetsu kondo");
    reveal_strlit("森下直親/naochika morishita");
    reveal_strlit("ぴよ/piyo");
    reveal_strlit("bartłomiej gaweł");
    reveal_strlit("浮雲宇一 / uichi ukumo");
    reveal_strlit("まじ/maji");
    reveal_strlit("v. szendrey (cashile)");
    reveal_strlit("ゆのまち｡/yunomachi.");
    reveal_strlit("安達 洋介/yosuke adachi");
    reveal_strlit("アオジマイコ / maiko aoji");
    reveal_strlit("アオジマイコ/aoji maiko");
    reveal_strlit("アマヤギ堂/amayagido");
    reveal_strlit("獣道/kemonomichi");
    reveal_strlit("ともひと/tomohito");
    reveal_strlit("ともひと / tomohito");
    reveal_strlit("七原しえ/shie nanahara");
    reveal_strlit("七原しえ / shie nanahara");
    reveal_strlit("william o’connor");
    reveal_strlit("西野幸治 / koji nishino");
    reveal_strlit("西野 幸治/koji nishino");
    reveal_strlit("朋さくら / sakura tomo");
    reveal_strlit("士基軽太 / karuta shiki");
    reveal_strlit("中島 綾美 / ayami nakashima");
    reveal_strlit("中島綾美/ayami nakashima");
    reveal_strlit("とびはち / tobihachi");
    reveal_strlit("山宗/sansyu");
    reveal_strlit("中坪宏太 / kota nakatsubo");
    reveal_strlit("中坪宏太/kota nakatsubo");
    reveal_strlit("マツモト ミツアキ/m.matsumoto");
    reveal_strlit("百瀬寿 / hisashi momose");
    reveal_strlit("百瀬寿/hisashi momose");
    reveal_strlit("創-taro / so-taro");
    reveal_strlit("りんこ｡/rinco.");
    reveal_strlit("霧糺/kiritada");
    reveal_strlit("霧糺 /  kiritada");
    reveal_strlit("霧糺 / kiritada");
    reveal_strlit("parente & brian snoddy");
    reveal_strlit("海鵜げそ/umiu geso");
    reveal_strlit("黒井ススム/susumu kuroi");
    reveal_strlit("アオガチョウ/aogachou");
    reveal_strlit("アオガチョウ / aogachou");
    reveal_strlit("jenn ravenna");
    reveal_strlit("村山竜大/ryota murayama");
    reveal_strlit("藤ちょこ/fuzichoco");
    reveal_strlit("伊藤未生/misei ito");
    reveal_strlit("ナブランジャ/nablange");
    reveal_strlit("原哲夫/hara tetsuo");
    reveal_strlit("長乃 / nagano");
    reveal_strlit("武内裕季 / yuhki takeuchi");
    reveal_strlit("吉澤舞子 / maiko yoshizawa");
    reveal_strlit("椿春雨/tubaki halsame");
    reveal_strlit("マルオユキヒロ/yukihiro maruo");
    reveal_strlit("佐久間友香 / yuka sakuma");
    reveal_strlit("石川健太/ishikawa kenta");
    reveal_strlit("出利/syutsuri");
    reveal_strlit("п猫ｒ/penekor");
    reveal_strlit("あんべ よしろう/yoshiro ambe");
    reveal_strlit("萩谷薫/kaoru hagiya");
    reveal_strlit("萩谷薫 / kaoru hagiya");
    reveal_strlit("dimitar");
    reveal_strlit("寿多　浩 / hiro suda");
    reveal_strlit("石黒亜矢子 / ayako ishiguro");
    reveal_strlit("jenn ravenna tran");
    reveal_strlit("volkan baga");
    reveal_strlit("新川洋司/yoji shinkawa");
    reveal_strlit("弥生しろ / shiro　yayoi");
    reveal_strlit("風間雷太/raita kazama");
    reveal_strlit("ゾウノセ/zounose");
    reveal_strlit("村上ヒサシ/murakami hisashi");
    reveal_strlit("七片藍/ai nanahira");
    reveal_strlit("martina fačková");
    reveal_strlit("仙田聡/satoru senda");
    reveal_strlit("前河悠一/maekawa yuichi");
    reveal_strlit("茶魔魔 / yaomojun");
    reveal_strlit("brian snoddy");
    reveal_strlit("壱子みるく亭/ichiko milk tei");
    reveal_strlit("三好奈緒/nao miyoshi");
    reveal_strlit("やまだ六角/yamada rokkaku");
    reveal_strlit("tapi岡/tapioca");
    reveal_strlit("白井秀実/shirai hidemi");
    reveal_strlit("夢子 / yumeko");
    reveal_strlit("奥田まがね / magane okuda");
    reveal_strlit("クロサワテツ/tetsu kurosawa");
    reveal_strlit("刀 彼方/katana canata");
    reveal_strlit("加藤 綾華/kato ayaka");
    reveal_strlit("ヨシヤ/yoshiya");
    reveal_strlit("小島文美 / ayami kojima");
    reveal_strlit("justyna gil");
    reveal_strlit("西木あれく/areku nishiki");
    reveal_strlit("中村エイト/nakamura8");
    reveal_strlit("嘉弖苅悠介 / yusuke katekari");
    reveal_strlit("瞑丸イヌチヨ/inuchiyo meimaru");
    reveal_strlit("pascal blanché");
    reveal_strlit("ângelo bortolini");
    reveal_strlit("la draws");
    reveal_strlit("jihun lee");
    reveal_strlit("justin hernandez & alexis hernandez");
    reveal_strlit("paolo parente");
    reveal_strlit("clover.k");
    reveal_strlit("nijimaarc");
    reveal_strlit("ryanroro");
    reveal_strlit("ari");
    reveal_strlit("azur");
    reveal_strlit("rindo karasuba");
    reveal_strlit("amayagido");
    reveal_strlit("fukuzo katsura");
    reveal_strlit("kasia 'kafis' zielińska");
    reveal_strlit("yaya");
    reveal_strlit("terada katsuya");
    reveal_strlit("dai-xt");
    reveal_strlit("hatori kyoka");
    reveal_strlit("ryutetsu");
    reveal_strlit("d-suzuki");
    reveal_strlit("miyaki hajime");
    reveal_strlit("zoran cardula");
    reveal_strlit("sumie okazu");
    reveal_strlit("ebila");
    reveal_strlit("kukka");
    reveal_strlit("kaoru yukishiro");
    reveal_strlit("tada");
    reveal_strlit("norikatsu miyoshi");
    reveal_strlit("esuthio");
    reveal_strlit("toshiaki takayama");
    reveal_strlit("rorubei");
    reveal_strlit("yangygan & xiaji");
    reveal_strlit("xiaji");
    reveal_strlit("yo-ne");
    reveal_strlit("totetsu kondo");
    reveal_strlit("naochika morishita");
    reveal_strlit("piyo");
    reveal_strlit("bartlomiej gawel");
    reveal_strlit("uichi ukumo");
    reveal_strlit("maji");
    reveal_strlit("vi szendrey (cashile)");
    reveal_strlit("yunomachi");
    reveal_strlit("yosuke adachi");
    reveal_strlit("maiko aoji");
    reveal_strlit("kemonomichi");
    reveal_strlit("tomohito");
    reveal_strlit("shie nanahara");
    reveal_strlit("william o'connor");
    reveal_strlit("koji nishino");
    reveal_strlit("sakura tomo");
    reveal_strlit("karuta shiki");
    reveal_strlit("ayami nakashima");
    reveal_strlit("tobihachi");
    reveal_strlit("sansyu");
    reveal_strlit("kota nakatsubo");
    reveal_strlit("m.matsumoto");
    reveal_strlit("hisashi momose");
    reveal_strlit("so-taro");
    reveal_strlit("rinco.");
    reveal_strlit("kiritada");
    reveal_strlit("paolo parente & brian snõddy");
    reveal_strlit("umiu geso");
    reveal_strlit("susumu kuroi");
    reveal_strlit("aogachou");
    reveal_strlit("ravenna tran");
    reveal_strlit("ryota murayama");
    reveal_strlit("fuzichoco");
    reveal_strlit("misei ito");
    reveal_strlit("nablange");
    reveal_strlit("tetsuo hara");
    reveal_strlit("nagano");
    reveal_strlit("yuhki takeuchi");
    reveal_strlit("maiko yoshizawa");
    reveal_strlit("tubaki halsame");
    reveal_strlit("yukihiro maruo");
    reveal_strlit("yuka sakuma");
    reveal_strlit("ishikawa kenta");
    reveal_strlit("syutsuri");
    reveal_strlit("penekor");
    reveal_strlit("yoshiro ambe");
    reveal_strlit("hagiya kaoru");
    reveal_strlit("dimitar marinski");
    reveal_strlit("hiro suda");
    reveal_strlit("ayako ishiguro");
    reveal_strlit("volkan baǵa");
    reveal_strlit("yoji shinkawa");
    reveal_strlit("shiro yayoi");
    reveal_strlit("raita kazama");
    reveal_strlit("zounose");
    reveal_strlit("murakami hisashi");
    reveal_strlit("ai nanahira");
    reveal_strlit("martina fackova");
    reveal_strlit("satoru senda");
    reveal_strlit("maekawa yuichi");
    reveal_strlit("yaomojun");
    reveal_strlit("brian snõddy");
    reveal_strlit("ichiko milk tei");
    reveal_strlit("nao miyoshi");
    reveal_strlit("yamada rokkaku");
    reveal_strlit("tapioca");
    reveal_strlit("shirai hidemi");
    reveal_strlit("yumeko");
    reveal_strlit("magane okuda");
    reveal_strlit("tetsu kurosawa");
    reveal_strlit("katana canata");
    reveal_strlit("kato ayaka");
    reveal_strlit("yoshiya");
    reveal_strlit("ayami kojima");
    reveal_strlit("justyna dura");
    reveal_strlit("areku nishiki");
    reveal_strlit("nakamura8");
    reveal_strlit("yusuke katekari");
    reveal_strlit("inuchiyo meimaru");
    assert("pascal blanche"@.len() == 14 && "pascal blanche"@[0] == 'p' && "pascal blanche"@[13] == 'e');
    assert("angelo bortolini"@.len() == 16 && "angelo bortolini"@[0] == 'a' && "angelo bortolini"@[15] == 'i');
    assert("l.a draws"@.len() == 9 && "l.a draws"@[0] == 'l' && "l.a draws"@[8] == 's');
    assert("jihun"@.len() == 5 && "jihun"@[0] == 'j' && "jihun"@[4] == 'n');
    assert("justin & alexis hernandez"@.len() == 25 && "justin & alexis hernandez"@[0] == 'j' && "justin & alexis hernandez"@[24] == 'z');
    assert("parente"@.len() == 7 && "parente"@[0] == 'p' && "parente"@[6] == 'e');
    assert("黒葉.k/clover.k"@.len() == 13 && "黒葉.k/clover.k"@[0] == '黒' && "黒葉.k/clover.k"@[12] == 'k');
    assert("にじまあるく/nijimaarc"@.len() == 16 && "にじまあるく/nijimaarc"@[0] == 'に' && "にじまあるく/nijimaarc"@[15] == 'c');
    assert("ライアンロロ / ryanroro"@.len() == 17 && "ライアンロロ / ryanroro"@[0] == 'ラ' && "ライアンロロ / ryanroro"@[16] == 'o');
    assert("蟻/ari"@.len() == 5 && "蟻/ari"@[0] == '蟻' && "蟻/ari"@[4] == 'i');
    assert("アジュール/azur"@.len() == 10 && "アジュール/azur"@[0] == 'ア' && "アジュール/azur"@[9] == 'r');
    assert("鴉羽凛燈 / rindo karasuba"@.len() == 21 && "鴉羽凛燈 / rindo karasuba"@[0] == '鴉' && "鴉羽凛燈 / rindo karasuba"@[20] == 'a');
    assert("アマヤギ堂 / amayagido"@.len() == 17 && "アマヤギ堂 / amayagido"@[0] == 'ア' && "アマヤギ堂 / amayagido"@[16] == 'o');
    assert("桂福蔵/fukuzo katsura"@.len() == 18 && "桂福蔵/fukuzo katsura"@[0] == '桂' && "桂福蔵/fukuzo katsura"@[17] == 'a');
    assert("kasia ‘kafis’ zielińska"@.len() == 23 && "kasia ‘kafis’ zielińska"@[0] == 'k' && "kasia ‘kafis’ zielińska"@[22] == 'a');
    assert("呀呀 / yaya"@.len() == 9 && "呀呀 / yaya"@[0] == '呀' && "呀呀 / yaya"@[8] == 'a');
    assert("寺田 克也/terada katsuya"@.len() == 20 && "寺田 克也/terada katsuya"@[0] == '寺' && "寺田 克也/terada katsuya"@[19] == 'a');
    assert("ダイエクスト/dai-xt."@.len() == 14 && "ダイエクスト/dai-xt."@[0] == 'ダ' && "ダイエクスト/dai-xt."@[13] == '.');
    assert("匈歌ハトリ / hatori kyoka"@.len() == 20 && "匈歌ハトリ / hatori kyoka"@[0] == '匈' && "匈歌ハトリ / hatori kyoka"@[19] == 'a');
    assert("竜徹/ryutetsu"@.len() == 11 && "竜徹/ryutetsu"@[0] == '竜' && "竜徹/ryutetsu"@[10] == 'u');
    assert("鈴木康士 / d-suzuki"@.len() == 15 && "鈴木康士 / d-suzuki"@[0] == '鈴' && "鈴木康士 / d-suzuki"@[14] == 'i');
    assert("宮木一/miyaki hajime"@.len() == 17 && "宮木一/miyaki hajime"@[0] == '宮' && "宮木一/miyaki hajime"@[16] == 'e');
    assert("cardula"@.len() == 7 && "cardula"@[0] == 'c' && "cardula"@[6] == 'a');
    assert("墨絵師「御歌頭」/ sumie okazu"@.len() == 21 && "墨絵師「御歌頭」/ sumie okazu"@[0] == '墨' && "墨絵師「御歌頭」/ sumie okazu"@[20] == 'u');
    assert("えびら/ebila"@.len() == 9 && "えびら/ebila"@[0] == 'え' && "えびら/ebila"@[8] == 'a');
    assert("くっか / kukka"@.len() == 11 && "くっか / kukka"@[0] == 'く' && "くっか / kukka"@[10] == 'a');
    assert("雪代薫 / kaoru yukishiro"@.len() == 21 && "雪代薫 / kaoru yukishiro"@[0] == '雪' && "雪代薫 / kaoru yukishiro"@[20] == 'o');
    assert("タダ / tada"@.len() == 9 && "タダ / tada"@[0] == 'タ' && "タダ / tada"@[8] == 'a');
    assert("三好載克 / norikatsu miyoshi"@.len() == 24 && "三好載克 / norikatsu miyoshi"@[0] == '三' && "三好載克 / norikatsu miyoshi"@[23] == 'i');
    assert("えすてぃお/esuthio"@.len() == 13 && "えすてぃお/esuthio"@[0] == 'え' && "えすてぃお/esuthio"@[12] == 'o');
    assert("タカヤマトシアキ/toshiaki takayama"@.len() == 26 && "タカヤマトシアキ/toshiaki takayama"@[0] == 'タ' && "タカヤマトシアキ/toshiaki takayama"@[25] == 'a');
    assert("ロルベイ/rorubei"@.len() == 12 && "ロルベイ/rorubei"@[0] == 'ロ' && "ロルベイ/rorubei"@[11] == 'i');
    assert("yangyang / xiaji"@.len() == 16 && "yangyang / xiaji"@[0] == 'y' && "yangyang / xiaji"@[15] == 'i');
    assert("xiaji/yangyang"@.len() == 14 && "xiaji/yangyang"@[0] == 'x' && "xiaji/yangyang"@[13] == 'g');
    assert("よーね/yo-ne"@.len() == 9 && "よーね/yo-ne"@[0] == 'よ' && "よーね/yo-ne"@[8] == 'e');
    assert("近藤途轍/totetsu kondo"@.len() == 18 && "近藤途轍/totetsu kondo"@[0] == '近' && "近藤途轍/totetsu kondo"@[17] == 'o');
    assert("森下直親/naochika morishita"@.len() == 23 && "森下直親/naochika morishita"@[0] == '森' && "森下直親/naochika morishita"@[22] == 'a');
    assert("ぴよ/piyo"@.len() == 7 && "ぴよ/piyo"@[0] == 'ぴ' && "ぴよ/piyo"@[6] == 'o');
    assert("bartłomiej gaweł"@.len() == 16 && "bartłomiej gaweł"@[0] == 'b' && "bartłomiej gaweł"@[15] == 'ł');
    assert("浮雲宇一 / uichi ukumo"@.len() == 18 && "浮雲宇一 / uichi ukumo"@[0] == '浮' && "浮雲宇一 / uichi ukumo"@[17] == 'o');
    assert("まじ/maji"@.len() == 7 && "まじ/maji"@[0] == 'ま' && "まじ/maji"@[6] == 'i');
    assert("v. szendrey (cashile)"@.len() == 21 && "v. szendrey (cashile)"@[0] == 'v' && "v. szendrey (cashile)"@[20] == ')');
    assert("ゆのまち｡/yunomachi."@.len() == 16 && "ゆのまち｡/yunomachi."@[0] == 'ゆ' && "ゆのまち｡/yunomachi."@[15] == '.');
    assert("安達 洋介/yosuke adachi"@.len() == 19 && "安達 洋介/yosuke adachi"@[0] == '安' && "安達 洋介/yosuke adachi"@[18] == 'i');
    assert("アオジマイコ / maiko aoji"@.len() == 19 && "アオジマイコ / maiko aoji"@[0] == 'ア' && "アオジマイコ / maiko aoji"@[18] == 'i');
    assert("アオジマイコ/aoji maiko"@.len() == 17 && "アオジマイコ/aoji maiko"@[0] == 'ア' && "アオジマイコ/aoji maiko"@[16] == 'o');
    assert("アマヤギ堂/amayagido"@.len() == 15 && "アマヤギ堂/amayagido"@[0] == 'ア' && "アマヤギ堂/amayagido"@[14] == 'o');
    assert("獣道/kemonomichi"@.len() == 14 && "獣道/kemonomichi"@[0] == '獣' && "獣道/kemonomichi"@[13] == 'i');
    assert("ともひと/tomohito"@.len() == 13 && "ともひと/tomohito"@[0] == 'と' && "ともひと/tomohito"@[12] == 'o');
    assert("ともひと / tomohito"@.len() == 15 && "ともひと / tomohito"@[0] == 'と' && "ともひと / tomohito"@[14] == 'o');
    assert("七原しえ/shie nanahara"@.len() == 18 && "七原しえ/shie nanahara"@[0] == '七' && "七原しえ/shie nanahara"@[17] == 'a');
    assert("七原しえ / shie nanahara"@.len() == 20 && "七原しえ / shie nanahara"@[0] == '七' && "七原しえ / shie nanahara"@[19] == 'a');
    assert("william o’connor"@.len() == 16 && "william o’connor"@[0] == 'w' && "william o’connor"@[15] == 'r');
    assert("西野幸治 / koji nishino"@.len() == 19 && "西野幸治 / koji nishino"@[0] == '西' && "西野幸治 / koji nishino"@[18] == 'o');
    assert("西野 幸治/koji nishino"@.len() == 18 && "西野 幸治/koji nishino"@[0] == '西' && "西野 幸治/koji nishino"@[17] == 'o');
    assert("朋さくら / sakura tomo"@.len() == 18 && "朋さくら / sakura tomo"@[0] == '朋' && "朋さくら / sakura tomo"@[17] == 'o');
    assert("士基軽太 / karuta shiki"@.len() == 19 && "士基軽太 / karuta shiki"@[0] == '士' && "士基軽太 / karuta shiki"@[18] == 'i');
    assert("中島 綾美 / ayami nakashima"@.len() == 23 && "中島 綾美 / ayami nakashima"@[0] == '中' && "中島 綾美 / ayami nakashima"@[22] == 'a');
    assert("中島綾美/ayami nakashima"@.len() == 20 && "中島綾美/ayami nakashima"@[0] == '中' && "中島綾美/ayami nakashima"@[19] == 'a');
    assert("とびはち / tobihachi"@.len() == 16 && "とびはち / tobihachi"@[0] == 'と' && "とびはち / tobihachi"@[15] == 'i');
    assert("山宗/sansyu"@.len() == 9 && "山宗/sansyu"@[0] == '山' && "山宗/sansyu"@[8] == 'u');
    assert("中坪宏太 / kota nakatsubo"@.len() == 21 && "中坪宏太 / kota nakatsubo"@[0] == '中' && "中坪宏太 / kota nakatsubo"@[20] == 'o');
    assert("中坪宏太/kota nakatsubo"@.len() == 19 && "中坪宏太/kota nakatsubo"@[0] == '中' && "中坪宏太/kota nakatsubo"@[18] == 'o');
    assert("マツモト ミツアキ/m.matsumoto"@.len() == 21 && "マツモト ミツアキ/m.matsumoto"@[0] == 'マ' && "マツモト ミツアキ/m.matsumoto"@[20] == 'o');
    assert("百瀬寿 / hisashi momose"@.len() == 20 && "百瀬寿 / hisashi momose"@[0] == '百' && "百瀬寿 / hisashi momose"@[19] == 'e');
    assert("百瀬寿/hisashi momose"@.len() == 18 && "百瀬寿/hisashi momose"@[0] == '百' && "百瀬寿/hisashi momose"@[17] == 'e');
    assert("創-taro / so-taro"@.len() == 16 && "創-taro / so-taro"@[0] == '創' && "創-taro / so-taro"@[15] == 'o');
    assert("りんこ｡/rinco."@.len() == 11 && "りんこ｡/rinco."@[0] == 'り' && "りんこ｡/rinco."@[10] == '.');
    assert("霧糺/kiritada"@.len() == 11 && "霧糺/kiritada"@[0] == '霧' && "霧糺/kiritada"@[10] == 'a');
    assert("霧糺 /  kiritada"@.len() == 14 && "霧糺 /  kiritada"@[0] == '霧' && "霧糺 /  kiritada"@[13] == 'a');
    assert("霧糺 / kiritada"@.len() == 13 && "霧糺 / kiritada"@[0] == '霧' && "霧糺 / kiritada"@[12] == 'a');
    assert("parente & brian snoddy"@.len() == 22 && "parente & brian snoddy"@[0] == 'p' && "parente & brian snoddy"@[21] == 'y');
    assert("海鵜げそ/umiu geso"@.len() == 14 && "海鵜げそ/umiu geso"@[0] == '海' && "海鵜げそ/umiu geso"@[13] == 'o');
    assert("黒井ススム/susumu kuroi"@.len() == 18 && "黒井ススム/susumu kuroi"@[0] == '黒' && "黒井ススム/susumu kuroi"@[17] == 'i');
    assert("アオガチョウ/aogachou"@.len() == 15 && "アオガチョウ/aogachou"@[0] == 'ア' && "アオガチョウ/aogachou"@[14] == 'u');
    assert("アオガチョウ / aogachou"@.len() == 17 && "アオガチョウ / aogachou"@[0] == 'ア' && "アオガチョウ / aogachou"@[16] == 'u');
    assert("jenn ravenna"@.len() == 12 && "jenn ravenna"@[0] == 'j' && "jenn ravenna"@[11] == 'a');
    assert("村山竜大/ryota murayama"@.len() == 19 && "村山竜大/ryota murayama"@[0] == '村' && "村山竜大/ryota murayama"@[18] == 'a');
    assert("藤ちょこ/fuzichoco"@.len() == 14 && "藤ちょこ/fuzichoco"@[0] == '藤' && "藤ちょこ/fuzichoco"@[13] == 'o');
    assert("伊藤未生/misei ito"@.len() == 14 && "伊藤未生/misei ito"@[0] == '伊' && "伊藤未生/misei ito"@[13] == 'o');
    assert("ナブランジャ/nablange"@.len() == 15 && "ナブランジャ/nablange"@[0] == 'ナ' && "ナブランジャ/nablange"@[14] == 'e');
    assert("原哲夫/hara tetsuo"@.len() == 15 && "原哲夫/hara tetsuo"@[0] == '原' && "原哲夫/hara tetsuo"@[14] == 'o');
    assert("長乃 / nagano"@.len() == 11 && "長乃 / nagano"@[0] == '長' && "長乃 / nagano"@[10] == 'o');
    assert("武内裕季 / yuhki takeuchi"@.len() == 21 && "武内裕季 / yuhki takeuchi"@[0] == '武' && "武内裕季 / yuhki takeuchi"@[20] == 'i');
    assert("吉澤舞子 / maiko yoshizawa"@.len() == 22 && "吉澤舞子 / maiko yoshizawa"@[0] == '吉' && "吉澤舞子 / maiko yoshizawa"@[21] == 'a');
    assert("椿春雨/tubaki halsame"@.len() == 18 && "椿春雨/tubaki halsame"@[0] == '椿' && "椿春雨/tubaki halsame"@[17] == 'e');
    assert("マルオユキヒロ/yukihiro maruo"@.len() == 22 && "マルオユキヒロ/yukihiro maruo"@[0] == 'マ' && "マルオユキヒロ/yukihiro maruo"@[21] == 'o');
    assert("佐久間友香 / yuka sakuma"@.len() == 19 && "佐久間友香 / yuka sakuma"@[0] == '佐' && "佐久間友香 / yuka sakuma"@[18] == 'a');
    assert("石川健太/ishikawa kenta"@.len() == 19 && "石川健太/ishikawa kenta"@[0] == '石' && "石川健太/ishikawa kenta"@[18] == 'a');
    assert("出利/syutsuri"@.len() == 11 && "出利/syutsuri"@[0] == '出' && "出利/syutsuri"@[10] == 'i');
    assert("п猫ｒ/penekor"@.len() == 11 && "п猫ｒ/penekor"@[0] == 'п' && "п猫ｒ/penekor"@[10] == 'r');
    assert("あんべ よしろう/yoshiro ambe"@.len() == 21 && "あんべ よしろう/yoshiro ambe"@[0] == 'あ' && "あんべ よしろう/yoshiro ambe"@[20] == 'e');
    assert("萩谷薫/kaoru hagiya"@.len() == 16 && "萩谷薫/kaoru hagiya"@[0] == '萩' && "萩谷薫/kaoru hagiya"@[15] == 'a');
    assert("萩谷薫 / kaoru hagiya"@.len() == 18 && "萩谷薫 / kaoru hagiya"@[0] == '萩' && "萩谷薫 / kaoru hagiya"@[17] == 'a');
    assert("dimitar"@.len() == 7 && "dimitar"@[0] == 'd' && "dimitar"@[6] == 'r');
    assert("寿多　浩 / hiro suda"@.len() == 16 && "寿多　浩 / hiro suda"@[0] == '寿' && "寿多　浩 / hiro suda"@[15] == 'a');
    assert("石黒亜矢子 / ayako ishiguro"@.len() == 22 && "石黒亜矢子 / ayako ishiguro"@[0] == '石' && "石黒亜矢子 / ayako ishiguro"@[21] == 'o');
    assert("jenn ravenna tran"@.len() == 17 && "jenn ravenna tran"@[0] == 'j' && "jenn ravenna tran"@[16] == 'n');
    assert("volkan baga"@.len() == 11 && "volkan baga"@[0] == 'v' && "volkan baga"@[10] == 'a');
    assert("新川洋司/yoji shinkawa"@.len() == 18 && "新川洋司/yoji shinkawa"@[0] == '新' && "新川洋司/yoji shinkawa"@[17] == 'a');
    assert("弥生しろ / shiro　yayoi"@.len() == 18 && "弥生しろ / shiro　yayoi"@[0] == '弥' && "弥生しろ / shiro　yayoi"@[17] == 'i');
    assert("風間雷太/raita kazama"@.len() == 17 && "風間雷太/raita kazama"@[0] == '風' && "風間雷太/raita kazama"@[16] == 'a');
    assert("ゾウノセ/zounose"@.len() == 12 && "ゾウノセ/zounose"@[0] == 'ゾ' && "ゾウノセ/zounose"@[11] == 'e');
    assert("村上ヒサシ/murakami hisashi"@.len() == 22 && "村上ヒサシ/murakami hisashi"@[0] == '村' && "村上ヒサシ/murakami hisashi"@[21] == 'i');
    assert("七片藍/ai nanahira"@.len() == 15 && "七片藍/ai nanahira"@[0] == '七' && "七片藍/ai nanahira"@[14] == 'a');
    assert("martina fačková"@.len() == 15 && "martina fačková"@[0] == 'm' && "martina fačková"@[14] == 'á');
    assert("仙田聡/satoru senda"@.len() == 16 && "仙田聡/satoru senda"@[0] == '仙' && "仙田聡/satoru senda"@[15] == 'a');
    assert("前河悠一/maekawa yuichi"@.len() == 19 && "前河悠一/maekawa yuichi"@[0] == '前' && "前河悠一/maekawa yuichi"@[18] == 'i');
    assert("茶魔魔 / yaomojun"@.len() == 14 && "茶魔魔 / yaomojun"@[0] == '茶' && "茶魔魔 / yaomojun"@[13] == 'n');
    assert("brian snoddy"@.len() == 12 && "brian snoddy"@[0] == 'b' && "brian snoddy"@[11] == 'y');
    assert("壱子みるく亭/ichiko milk tei"@.len() == 22 && "壱子みるく亭/ichiko milk tei"@[0] == '壱' && "壱子みるく亭/ichiko milk tei"@[21] == 'i');
    assert("三好奈緒/nao miyoshi"@.len() == 16 && "三好奈緒/nao miyoshi"@[0] == '三' && "三好奈緒/nao miyoshi"@[15] == 'i');
    assert("やまだ六角/yamada rokkaku"@.len() == 20 && "やまだ六角/yamada rokkaku"@[0] == 'や' && "やまだ六角/yamada rokkaku"@[19] == 'u');
    assert("tapi岡/tapioca"@.len() == 13 && "tapi岡/tapioca"@[0] == 't' && "tapi岡/tapioca"@[12] == 'a');
    assert("白井秀実/shirai hidemi"@.len() == 18 && "白井秀実/shirai hidemi"@[0] == '白' && "白井秀実/shirai hidemi"@[17] == 'i');
    assert("夢子 / yumeko"@.len() == 11 && "夢子 / yumeko"@[0] == '夢' && "夢子 / yumeko"@[10] == 'o');
    assert("奥田まがね / magane okuda"@.len() == 20 && "奥田まがね / magane okuda"@[0] == '奥' && "奥田まがね / magane okuda"@[19] == 'a');
    assert("クロサワテツ/tetsu kurosawa"@.len() == 21 && "クロサワテツ/tetsu kurosawa"@[0] == 'ク' && "クロサワテツ/tetsu kurosawa"@[20] == 'a');
    assert("刀 彼方/katana canata"@.len() == 18 && "刀 彼方/katana canata"@[0] == '刀' && "刀 彼方/katana canata"@[17] == 'a');
    assert("加藤 綾華/kato ayaka"@.len() == 16 && "加藤 綾華/kato ayaka"@[0] == '加' && "加藤 綾華/kato ayaka"@[15] == 'a');
    assert("ヨシヤ/yoshiya"@.len() == 11 && "ヨシヤ/yoshiya"@[0] == 'ヨ' && "ヨシヤ/yoshiya"@[10] == 'a');
    assert("小島文美 / ayami kojima"@.len() == 19 && "小島文美 / ayami kojima"@[0] == '小' && "小島文美 / ayami kojima"@[18] == 'a');
    assert("justyna gil"@.len() == 11 && "justyna gil"@[0] == 'j' && "justyna gil"@[10] == 'l');
    assert("西木あれく/areku nishiki"@.len() == 19 && "西木あれく/areku nishiki"@[0] == '西' && "西木あれく/areku nishiki"@[18] == 'i');
    assert("中村エイト/nakamura8"@.len() == 15 && "中村エイト/nakamura8"@[0] == '中' && "中村エイト/nakamura8"@[14] == '8');
    assert("嘉弖苅悠介 / yusuke katekari"@.len() == 23 && "嘉弖苅悠介 / yusuke katekari"@[0] == '嘉' && "嘉弖苅悠介 / yusuke katekari"@[22] == 'i');
    assert("瞑丸イヌチヨ/inuchiyo meimaru"@.len() == 23 && "瞑丸イヌチヨ/inuchiyo meimaru"@[0] == '瞑' && "瞑丸イヌチヨ/inuchiyo meimaru"@[22] == 'u');
    assert("pascal blanché"@.len() == 14 && "pascal blanché"@[0] == 'p' && "pascal blanché"@[13] == 'é');
    assert("ângelo bortolini"@.len() == 16 && "ângelo bortolini"@[0] == 'â' && "ângelo bortolini"@[15] == 'i');
    assert("la draws"@.len() == 8 && "la draws"@[0] == 'l' && "la draws"@[7] == 's');
    assert("jihun lee"@.len() == 9 && "jihun lee"@[0] == 'j' && "jihun lee"@[8] == 'e');
    assert("justin hernandez & alexis hernandez"@.len() == 35 && "justin hernandez & alexis hernandez"@[0] == 'j' && "justin hernandez & alexis hernandez"@[34] == 'z');
    assert("paolo parente"@.len() == 13 && "paolo parente"@[0] == 'p' && "paolo parente"@[12] == 'e');
    assert("clover.k"@.len() == 8 && "clover.k"@[0] == 'c' && "clover.k"@[7] == 'k');
    assert("nijimaarc"@.len() == 9 && "nijimaarc"@[0] == 'n' && "nijimaarc"@[8] == 'c');
    assert("ryanroro"@.len() == 8 && "ryanroro"@[0] == 'r' && "ryanroro"@[7] == 'o');
    assert("ari"@.len() == 3 && "ari"@[0] == 'a' && "ari"@[2] == 'i');
    assert("azur"@.len() == 4 && "azur"@[0] == 'a' && "azur"@[3] == 'r');
    assert("rindo karasuba"@.len() == 14 && "rindo karasuba"@[0] == 'r' && "rindo karasuba"@[13] == 'a');
    assert("amayagido"@.len() == 9 && "amayagido"@[0] == 'a' && "amayagido"@[8] == 'o');
    assert("fukuzo katsura"@.len() == 14 && "fukuzo katsura"@[0] == 'f' && "fukuzo katsura"@[13] == 'a');
    assert("kasia 'kafis' zielińska"@.len() == 23 && "kasia 'kafis' zielińska"@[0] == 'k' && "kasia 'kafis' zielińska"@[22] == 'a');
    assert("yaya"@.len() == 4 && "yaya"@[0] == 'y' && "yaya"@[3] == 'a');
    assert("terada katsuya"@.len() == 14 && "terada katsuya"@[0] == 't' && "terada katsuya"@[13] == 'a');
    assert("dai-xt"@.len() == 6 && "dai-xt"@[0] == 'd' && "dai-xt"@[5] == 't');
    assert("hatori kyoka"@.len() == 12 && "hatori kyoka"@[0] == 'h' && "hatori kyoka"@[11] == 'a');
    assert("ryutetsu"@.len() == 8 && "ryutetsu"@[0] == 'r' && "ryutetsu"@[7] == 'u');
    assert("d-suzuki"@.len() == 8 && "d-suzuki"@[0] == 'd' && "d-suzuki"@[7] == 'i');
    assert("miyaki hajime"@.len() == 13 && "miyaki hajime"@[0] == 'm' && "miyaki hajime"@[12] == 'e');
    assert("zoran cardula"@.len() == 13 && "zoran cardula"@[0] == 'z' && "zoran cardula"@[12] == 'a');
    assert("sumie okazu"@.len() == 11 && "sumie okazu"@[0] == 's' && "sumie okazu"@[10] == 'u');
    assert("ebila"@.len() == 5 && "ebila"@[0] == 'e' && "ebila"@[4] == 'a');
    assert("kukka"@.len() == 5 && "kukka"@[0] == 'k' && "kukka"@[4] == 'a');
    assert("kaoru yukishiro"@.len() == 15 && "kaoru yukishiro"@[0] == 'k' && "kaoru yukishiro"@[14] == 'o');
    assert("tada"@.len() == 4 && "tada"@[0] == 't' && "tada"@[3] == 'a');
    assert("norikatsu miyoshi"@.len() == 17 && "norikatsu miyoshi"@[0] == 'n' && "norikatsu miyoshi"@[16] == 'i');
    assert("esuthio"@.len() == 7 && "esuthio"@[0] == 'e' && "esuthio"@[6] == 'o');
    assert("toshiaki takayama"@.len() == 17 && "toshiaki takayama"@[0] == 't' && "toshiaki takayama"@[16] == 'a');
    assert("rorubei"@.len() == 7 && "rorubei"@[0] == 'r' && "rorubei"@[6] == 'i');
    assert("yangygan & xiaji"@.len() == 16 && "yangygan & xiaji"@[0] == 'y' && "yangygan & xiaji"@[15] == 'i');
    assert("xiaji"@.len() == 5 && "xiaji"@[0] == 'x' && "xiaji"@[4] == 'i');
    assert("yo-ne"@.len() == 5 && "yo-ne"@[0] == 'y' && "yo-ne"@[4] == 'e');
    assert("totetsu kondo"@.len() == 13 && "totetsu kondo"@[0] == 't' && "totetsu kondo"@[12] == 'o');
    assert("naochika morishita"@.len() == 18 && "naochika morishita"@[0] == 'n' && "naochika morishita"@[17] == 'a');
    assert("piyo"@.len() == 4 && "piyo"@[0] == 'p' && "piyo"@[3] == 'o');
    assert("bartlomiej gawel"@.len() == 16 && "bartlomiej gawel"@[0] == 'b' && "bartlomiej gawel"@[15] == 'l');
    assert("uichi ukumo"@.len() == 11 && "uichi ukumo"@[0] == 'u' && "uichi ukumo"@[10] == 'o');
    assert("maji"@.len() == 4 && "maji"@[0] == 'm' && "maji"@[3] == 'i');
    assert("vi szendrey (cashile)"@.len() == 21 && "vi szendrey (cashile)"@[0] == 'v' && "vi szendrey (cashile)"@[20] == ')');
    assert("yunomachi"@.len() == 9 && "yunomachi"@[0] == 'y' && "yunomachi"@[8] == 'i');
    assert("yosuke adachi"@.len() == 13 && "yosuke adachi"@[0] == 'y' && "yosuke adachi"@[12] == 'i');
    assert("maiko aoji"@.len() == 10 && "maiko aoji"@[0] == 'm' && "maiko aoji"@[9] == 'i');
    assert("kemonomichi"@.len() == 11 && "kemonomichi"@[0] == 'k' && "kemonomichi"@[10] == 'i');
    assert("tomohito"@.len() == 8 && "tomohito"@[0] == 't' && "tomohito"@[7] == 'o');
    assert("shie nanahara"@.len() == 13 && "shie nanahara"@[0] == 's' && "shie nanahara"@[12] == 'a');
    assert("william o'connor"@.len() == 16 && "william o'connor"@[0] == 'w' && "william o'connor"@[15] == 'r');
    assert("koji nishino"@.len() == 12 && "koji nishino"@[0] == 'k' && "koji nishino"@[11] == 'o');
    assert("sakura tomo"@.len() == 11 && "sakura tomo"@[0] == 's' && "sakura tomo"@[10] == 'o');
    assert("karuta shiki"@.len() == 12 && "karuta shiki"@[0] == 'k' && "karuta shiki"@[11] == 'i');
    assert("ayami nakashima"@.len() == 15 && "ayami nakashima"@[0] == 'a' && "ayami nakashima"@[14] == 'a');
    assert("tobihachi"@.len() == 9 && "tobihachi"@[0] == 't' && "tobihachi"@[8] == 'i');
    assert("sansyu"@.len() == 6 && "sansyu"@[0] == 's' && "sansyu"@[5] == 'u');
    assert("kota nakatsubo"@.len() == 14 && "kota nakatsubo"@[0] == 'k' && "kota nakatsubo"@[13] == 'o');
    assert("m.matsumoto"@.len() == 11 && "m.matsumoto"@[0] == 'm' && "m.matsumoto"@[10] == 'o');
    assert("hisashi momose"@.len() == 14 && "hisashi momose"@[0] == 'h' && "hisashi momose"@[13] == 'e');
    assert("so-taro"@.len() == 7 && "so-taro"@[0] == 's' && "so-taro"@[6] == 'o');
    assert("rinco."@.len() == 6 && "rinco."@[0] == 'r' && "rinco."@[5] == '.');
    assert("kiritada"@.len() == 8 && "kiritada"@[0] == 'k' && "kiritada"@[7] == 'a');
    assert("paolo parente & brian snõddy"@.len() == 28 && "paolo parente & brian snõddy"@[0] == 'p' && "paolo parente & brian snõddy"@[27] == 'y');
    assert("umiu geso"@.len() == 9 && "umiu geso"@[0] == 'u' && "umiu geso"@[8] == 'o');
    assert("susumu kuroi"@.len() == 12 && "susumu kuroi"@[0] == 's' && "susumu kuroi"@[11] == 'i');
    assert("aogachou"@.len() == 8 && "aogachou"@[0] == 'a' && "aogachou"@[7] == 'u');
    assert("ravenna tran"@.len() == 12 && "ravenna tran"@[0] == 'r' && "ravenna tran"@[11] == 'n');
    assert("ryota murayama"@.len() == 14 && "ryota murayama"@[0] == 'r' && "ryota murayama"@[13] == 'a');
    assert("fuzichoco"@.len() == 9 && "fuzichoco"@[0] == 'f' && "fuzichoco"@[8] == 'o');
    assert("misei ito"@.len() == 9 && "misei ito"@[0] == 'm' && "misei ito"@[8] == 'o');
    assert("nablange"@.len() == 8 && "nablange"@[0] == 'n' && "nablange"@[7] == 'e');
    assert("tetsuo hara"@.len() == 11 && "tetsuo hara"@[0] == 't' && "tetsuo hara"@[10] == 'a');
    assert("nagano"@.len() == 6 && "nagano"@[0] == 'n' && "nagano"@[5] == 'o');
    assert("yuhki takeuchi"@.len() == 14 && "yuhki takeuchi"@[0] == 'y' && "yuhki takeuchi"@[13] == 'i');
    assert("maiko yoshizawa"@.len() == 15 && "maiko yoshizawa"@[0] == 'm' && "maiko yoshizawa"@[14] == 'a');
    assert("tubaki halsame"@.len() == 14 && "tubaki halsame"@[0] == 't' && "tubaki halsame"@[13] == 'e');
    assert("yukihiro maruo"@.len() == 14 && "yukihiro maruo"@[0] == 'y' && "yukihiro maruo"@[13] == 'o');
    assert("yuka sakuma"@.len() == 11 && "yuka sakuma"@[0] == 'y' && "yuka sakuma"@[10] == 'a');
    assert("ishikawa kenta"@.len() == 14 && "ishikawa kenta"@[0] == 'i' && "ishikawa kenta"@[13] == 'a');
    assert("syutsuri"@.len() == 8 && "syutsuri"@[0] == 's' && "syutsuri"@[7] == 'i');
    assert("penekor"@.len() == 7 && "penekor"@[0] == 'p' && "penekor"@[6] == 'r');
    assert("yoshiro ambe"@.len() == 12 && "yoshiro ambe"@[0] == 'y' && "yoshiro ambe"@[11] == 'e');
    assert("hagiya kaoru"@.len() == 12 && "hagiya kaoru"@[0] == 'h' && "hagiya kaoru"@[11] == 'u');
    assert("dimitar marinski"@.len() == 16 && "dimitar marinski"@[0] == 'd' && "dimitar marinski"@[15] == 'i');
    assert("hiro suda"@.len() == 9 && "hiro suda"@[0] == 'h' && "hiro suda"@[8] == 'a');
    assert("ayako ishiguro"@.len() == 14 && "ayako ishiguro"@[0] == 'a' && "ayako ishiguro"@[13] == 'o');
    assert("volkan baǵa"@.len() == 11 && "volkan baǵa"@[0] == 'v' && "volkan baǵa"@[10] == 'a');
    assert("yoji shinkawa"@.len() == 13 && "yoji shinkawa"@[0] == 'y' && "yoji shinkawa"@[12] == 'a');
    assert("shiro yayoi"@.len() == 11 && "shiro yayoi"@[0] == 's' && "shiro yayoi"@[10] == 'i');
    assert("raita kazama"@.len() == 12 && "raita kazama"@[0] == 'r' && "raita kazama"@[11] == 'a');
    assert("zounose"@.len() == 7 && "zounose"@[0] == 'z' && "zounose"@[6] == 'e');
    assert("murakami hisashi"@.len() == 16 && "murakami hisashi"@[0] == 'm' && "murakami hisashi"@[15] == 'i');
    assert("ai nanahira"@.len() == 11 && "ai nanahira"@[0] == 'a' && "ai nanahira"@[10] == 'a');
    assert("martina fackova"@.len() == 15 && "martina fackova"@[0] == 'm' && "martina fackova"@[14] == 'a');
    assert("satoru senda"@.len() == 12 && "satoru senda"@[0] == 's' && "satoru senda"@[11] == 'a');
    assert("maekawa yuichi"@.len() == 14 && "maekawa yuichi"@[0] == 'm' && "maekawa yuichi"@[13] == 'i');
    assert("yaomojun"@.len() == 8 && "yaomojun"@[0] == 'y' && "yaomojun"@[7] == 'n');
    assert("brian snõddy"@.len() == 12 && "brian snõddy"@[0] == 'b' && "brian snõddy"@[11] == 'y');
    assert("ichiko milk tei"@.len() == 15 && "ichiko milk tei"@[0] == 'i' && "ichiko milk tei"@[14] == 'i');
    assert("nao miyoshi"@.len() == 11 && "nao miyoshi"@[0] == 'n' && "nao miyoshi"@[10] == 'i');
    assert("yamada rokkaku"@.len() == 14 && "yamada rokkaku"@[0] == 'y' && "yamada rokkaku"@[13] == 'u');
    assert("tapioca"@.len() == 7 && "tapioca"@[0] == 't' && "tapioca"@[6] == 'a');
    assert("shirai hidemi"@.len() == 13 && "shirai hidemi"@[0] == 's' && "shirai hidemi"@[12] == 'i');
    assert("yumeko"@.len() == 6 && "yumeko"@[0] == 'y' && "yumeko"@[5] == 'o');
    assert("magane okuda"@.len() == 12 && "magane okuda"@[0] == 'm' && "magane okuda"@[11] == 'a');
    assert("tetsu kurosawa"@.len() == 14 && "tetsu kurosawa"@[0] == 't' && "tetsu kurosawa"@[13] == 'a');
    assert("katana canata"@.len() == 13 && "katana canata"@[0] == 'k' && "katana canata"@[12] == 'a');
    assert("kato ayaka"@.len() == 10 && "kato ayaka"@[0] == 'k' && "kato ayaka"@[9] == 'a');
    assert("yoshiya"@.len() == 7 && "yoshiya"@[0] == 'y' && "yoshiya"@[6] == 'a');
    assert("ayami kojima"@.len() == 12 && "ayami kojima"@[0] == 'a' && "ayami kojima"@[11] == 'a');
    assert("justyna dura"@.len() == 12 && "justyna dura"@[0] == 'j' && "justyna dura"@[11] == 'a');
    assert("areku nishiki"@.len() == 13 && "areku nishiki"@[0] == 'a' && "areku nishiki"@[12] == 'i');
    assert("nakamura8"@.len() == 9 && "nakamura8"@[0] == 'n' && "nakamura8"@[8] == '8');
    assert("yusuke katekari"@.len() == 15 && "yusuke katekari"@[0] == 'y' && "yusuke katekari"@[14] == 'i');
    assert("inuchiyo meimaru"@.len() == 16 && "inuchiyo meimaru"@[0] == 'i' && "inuchiyo meimaru"@[15] == 'u');
    assert("kasia 'kafis' zielińska"@[6] != "kasia ‘kafis’ zielińska"@[6]);
    assert("yangygan & xiaji"@[5] != "yangyang / xiaji"@[5]);
    assert("vi szendrey (cashile)"@[1] != "v. szendrey (cashile)"@[1]);
    assert("william o'connor"@[9] != "william o’connor"@[9]);
    assert("volkan baǵa"@[9] != "volkan baga"@[9]);
    assert("brian snõddy"@[8] != "brian snoddy"@[8]);
    assert("justyna dura"@[1] != "jenn ravenna"@[1]);
    assert("アオジマイコ/aoji maiko"@[1] != "アマヤギ堂 / amayagido"@[1]);
}

} // verus!
