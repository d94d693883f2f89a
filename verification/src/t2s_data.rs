//! Traditional characters and their simplified forms.

use vstd::prelude::*;

verus! {

/// One pair per line: the traditional character, a tab, the simplified one.
pub const T2S_DATA: &'static str = "\
    萬\t万\n與\t与\n醜\t丑\n專\t专\n業\t业\n叢\t丛\n東\t东\n絲\t丝\n丟\t丢\n兩\t两\n\
    嚴\t严\n喪\t丧\n個\t个\n豐\t丰\n臨\t临\n為\t为\n麗\t丽\n舉\t举\n麼\t么\n義\t义\n\
    烏\t乌\n樂\t乐\n喬\t乔\n習\t习\n鄉\t乡\n書\t书\n買\t买\n亂\t乱\n爭\t争\n於\t于\n\
    虧\t亏\n雲\t云\n亙\t亘\n亞\t亚\n產\t产\n畝\t亩\n親\t亲\n褻\t亵\n嚲\t亸\n億\t亿\n\
    僅\t仅\n從\t从\n侖\t仑\n倉\t仓\n儀\t仪\n們\t们\n價\t价\n眾\t众\n優\t优\n夥\t伙\n\
    會\t会\n傴\t伛\n傘\t伞\n偉\t伟\n傳\t传\n傷\t伤\n倀\t伥\n倫\t伦\n傖\t伧\n偽\t伪\n\
    佇\t伫\n體\t体\n餘\t余\n傭\t佣\n僉\t佥\n俠\t侠\n侶\t侣\n僥\t侥\n偵\t侦\n側\t侧\n\
    僑\t侨\n儈\t侩\n儕\t侪\n儂\t侬\n俁\t俣\n儔\t俦\n儼\t俨\n倆\t俩\n儷\t俪\n儉\t俭\n\
    債\t债\n傾\t倾\n傯\t偬\n僂\t偻\n僨\t偾\n償\t偿\n儻\t傥\n儐\t傧\n儲\t储\n儺\t傩\n\
    兒\t儿\n兌\t兑\n兗\t兖\n黨\t党\n蘭\t兰\n關\t关\n興\t兴\n茲\t兹\n養\t养\n獸\t兽\n\
    囅\t冁\n內\t内\n岡\t冈\n冊\t册\n寫\t写\n軍\t军\n農\t农\n塚\t冢\n馮\t冯\n沖\t冲\n\
    決\t决\n況\t况\n凍\t冻\n淨\t净\n涼\t凉\n減\t减\n湊\t凑\n凜\t凛\n幾\t几\n鳳\t凤\n\
    鳧\t凫\n憑\t凭\n凱\t凯\n擊\t击\n鑿\t凿\n芻\t刍\n劃\t划\n劉\t刘\n則\t则\n剛\t刚\n\
    創\t创\n刪\t删\n別\t别\n剎\t刹\n劊\t刽\n劌\t刿\n剴\t剀\n劑\t剂\n剮\t剐\n劍\t剑\n\
    剝\t剥\n劇\t剧\n勸\t劝\n辦\t办\n務\t务\n勱\t劢\n動\t动\n勵\t励\n勁\t劲\n勞\t劳\n\
    勢\t势\n勳\t勋\n勻\t匀\n匭\t匦\n匱\t匮\n區\t区\n醫\t医\n華\t华\n協\t协\n單\t单\n\
    賣\t卖\n盧\t卢\n滷\t卤\n臥\t卧\n衛\t卫\n卻\t却\n廠\t厂\n廳\t厅\n曆\t历\n厲\t厉\n\
    壓\t压\n厭\t厌\n厙\t厍\n廁\t厕\n廂\t厢\n厴\t厣\n廈\t厦\n廚\t厨\n廄\t厩\n廝\t厮\n\
    縣\t县\n參\t参\n雙\t双\n發\t发\n變\t变\n敘\t叙\n疊\t叠\n葉\t叶\n號\t号\n嘆\t叹\n\
    嘰\t叽\n籲\t吁\n後\t后\n嚇\t吓\n呂\t吕\n嗎\t吗\n唚\t吣\n噸\t吨\n聽\t听\n啟\t启\n\
    吳\t吴\n嘸\t呒\n囈\t呓\n嘔\t呕\n嚦\t呖\n唄\t呗\n員\t员\n咼\t呙\n嗆\t呛\n嗚\t呜\n\
    詠\t咏\n嚨\t咙\n嚀\t咛\n噝\t咝\n嚌\t哜\n噲\t哙\n嘩\t哗\n噥\t哝\n嘵\t哓\n響\t响\n\
    啞\t哑\n噠\t哒\n嗶\t哔\n噦\t哕\n嘜\t唛\n嘮\t唠\n嘖\t啧\n嗇\t啬\n囀\t啭\n嘯\t啸\n\
    噴\t喷\n嘍\t喽\n嚳\t喾\n囁\t嗫\n噯\t嗳\n嚶\t嘤\n囑\t嘱\n嚕\t噜\n囂\t嚣\n謔\t谑\n\
    團\t团\n園\t园\n囪\t囱\n圍\t围\n圇\t囵\n國\t国\n圖\t图\n圓\t圆\n聖\t圣\n壙\t圹\n\
    場\t场\n壞\t坏\n塊\t块\n堅\t坚\n壇\t坛\n壩\t坝\n塢\t坞\n墳\t坟\n墜\t坠\n壟\t垄\n\
    壚\t垆\n壘\t垒\n墾\t垦\n堊\t垩\n墊\t垫\n埡\t垭\n塏\t垲\n堖\t垴\n塒\t埘\n塤\t埙\n\
    堝\t埚\n塹\t堑\n墮\t堕\n壪\t塆\n牆\t墙\n壯\t壮\n聲\t声\n殼\t壳\n壺\t壶\n壼\t壸\n\
    處\t处\n備\t备\n復\t复\n夠\t够\n頭\t头\n誇\t夸\n夾\t夹\n奪\t夺\n奩\t奁\n奐\t奂\n\
    奮\t奋\n獎\t奖\n奧\t奥\n妝\t妆\n婦\t妇\n媽\t妈\n嫵\t妩\n嫗\t妪\n媯\t妫\n姍\t姗\n\
    薑\t姜\n婁\t娄\n婭\t娅\n嬈\t娆\n嬌\t娇\n孌\t娈\n娛\t娱\n媧\t娲\n嫻\t娴\n嫿\t婳\n\
    嬰\t婴\n嬋\t婵\n嬸\t婶\n嬡\t嫒\n嬪\t嫔\n嬙\t嫱\n嬤\t嬷\n孫\t孙\n學\t学\n孿\t孪\n\
    寧\t宁\n寶\t宝\n實\t实\n寵\t宠\n審\t审\n憲\t宪\n宮\t宫\n寬\t宽\n賓\t宾\n寢\t寝\n\
    對\t对\n尋\t寻\n導\t导\n壽\t寿\n將\t将\n爾\t尔\n塵\t尘\n堯\t尧\n尷\t尴\n屍\t尸\n\
    盡\t尽\n層\t层\n屜\t屉\n屆\t届\n屬\t属\n屢\t屡\n屨\t屦\n嶼\t屿\n歲\t岁\n豈\t岂\n\
    嶇\t岖\n崗\t岗\n峴\t岘\n嵐\t岚\n島\t岛\n嶺\t岭\n嶽\t岳\n崬\t岽\n巋\t岿\n嶨\t峃\n\
    嶧\t峄\n峽\t峡\n嶢\t峣\n嶠\t峤\n崢\t峥\n巒\t峦\n嶗\t崂\n崍\t崃\n嶮\t崄\n嶄\t崭\n\
    嶸\t嵘\n嶁\t嵝\n巔\t巅\n鞏\t巩\n巰\t巯\n幣\t币\n帥\t帅\n師\t师\n幃\t帏\n帳\t帐\n\
    簾\t帘\n幟\t帜\n帶\t带\n幀\t帧\n幫\t帮\n幬\t帱\n幘\t帻\n幗\t帼\n冪\t幂\n幹\t干\n\
    並\t并\n廣\t广\n莊\t庄\n慶\t庆\n廬\t庐\n廡\t庑\n庫\t库\n應\t应\n廟\t庙\n龐\t庞\n\
    廢\t废\n廩\t廪\n開\t开\n異\t异\n棄\t弃\n張\t张\n彌\t弥\n弳\t弪\n彎\t弯\n彈\t弹\n\
    強\t强\n歸\t归\n當\t当\n錄\t录\n彥\t彦\n徹\t彻\n徑\t径\n徠\t徕\n禦\t御\n憶\t忆\n\
    懺\t忏\n憂\t忧\n愾\t忾\n懷\t怀\n態\t态\n慫\t怂\n憮\t怃\n慪\t怄\n悵\t怅\n愴\t怆\n\
    憐\t怜\n總\t总\n懟\t怼\n懌\t怿\n戀\t恋\n懇\t恳\n惡\t恶\n慟\t恸\n懨\t恹\n愷\t恺\n\
    惻\t恻\n惱\t恼\n惲\t恽\n悅\t悦\n愨\t悫\n懸\t悬\n慳\t悭\n憫\t悯\n驚\t惊\n懼\t惧\n\
    慘\t惨\n懲\t惩\n憊\t惫\n愜\t惬\n慚\t惭\n憚\t惮\n慣\t惯\n憒\t愦\n願\t愿\n懾\t慑\n\
    憖\t慭\n懣\t懑\n懶\t懒\n懍\t懔\n戇\t戆\n戔\t戋\n戲\t戏\n戧\t戗\n戰\t战\n戩\t戬\n\
    戶\t户\n紮\t扎\n撲\t扑\n執\t执\n擴\t扩\n捫\t扪\n掃\t扫\n揚\t扬\n擾\t扰\n撫\t抚\n\
    拋\t抛\n摶\t抟\n摳\t抠\n掄\t抡\n搶\t抢\n護\t护\n報\t报\n擔\t担\n擬\t拟\n攏\t拢\n\
    揀\t拣\n擁\t拥\n攔\t拦\n擰\t拧\n撥\t拨\n擇\t择\n掛\t挂\n摯\t挚\n攣\t挛\n掗\t挜\n\
    撾\t挝\n撻\t挞\n挾\t挟\n撓\t挠\n擋\t挡\n撟\t挢\n掙\t挣\n擠\t挤\n揮\t挥\n撏\t挦\n\
    撈\t捞\n損\t损\n撿\t捡\n換\t换\n搗\t捣\n據\t据\n擄\t掳\n摑\t掴\n擲\t掷\n撣\t掸\n\
    摻\t掺\n摜\t掼\n攬\t揽\n撳\t揿\n攙\t搀\n擱\t搁\n摟\t搂\n攪\t搅\n攜\t携\n攝\t摄\n\
    攄\t摅\n擺\t摆\n搖\t摇\n擯\t摈\n攤\t摊\n攖\t撄\n撐\t撑\n攆\t撵\n擷\t撷\n擼\t撸\n\
    攛\t撺\n擻\t擞\n攢\t攒\n敵\t敌\n斂\t敛\n數\t数\n齋\t斋\n斕\t斓\n鬥\t斗\n斬\t斩\n\
    斷\t断\n無\t无\n舊\t旧\n時\t时\n曠\t旷\n暘\t旸\n曇\t昙\n晝\t昼\n曨\t昽\n顯\t显\n\
    晉\t晋\n曬\t晒\n曉\t晓\n曄\t晔\n暈\t晕\n暉\t晖\n暫\t暂\n曖\t暧\n術\t术\n樸\t朴\n\
    機\t机\n殺\t杀\n雜\t杂\n權\t权\n條\t条\n來\t来\n楊\t杨\n榪\t杩\n傑\t杰\n極\t极\n\
    構\t构\n樅\t枞\n樞\t枢\n棗\t枣\n櫪\t枥\n梘\t枧\n棖\t枨\n槍\t枪\n楓\t枫\n梟\t枭\n\
    櫃\t柜\n檸\t柠\n檉\t柽\n梔\t栀\n柵\t栅\n標\t标\n棧\t栈\n櫛\t栉\n櫳\t栊\n棟\t栋\n\
    櫨\t栌\n櫟\t栎\n欄\t栏\n樹\t树\n棲\t栖\n樣\t样\n欒\t栾\n椏\t桠\n橈\t桡\n楨\t桢\n\
    檔\t档\n榿\t桤\n橋\t桥\n樺\t桦\n檜\t桧\n槳\t桨\n樁\t桩\n夢\t梦\n檮\t梼\n檢\t检\n\
    槨\t椁\n櫝\t椟\n槧\t椠\n欏\t椤\n橢\t椭\n樓\t楼\n欖\t榄\n櫬\t榇\n櫚\t榈\n櫸\t榉\n\
    檟\t槚\n檻\t槛\n檳\t槟\n櫧\t槠\n橫\t横\n檣\t樯\n櫻\t樱\n櫫\t橥\n櫥\t橱\n櫓\t橹\n\
    櫞\t橼\n簷\t檐\n檁\t檩\n歡\t欢\n歟\t欤\n歐\t欧\n殲\t歼\n歿\t殁\n殤\t殇\n殘\t残\n\
    殞\t殒\n殮\t殓\n殫\t殚\n殯\t殡\n毆\t殴\n毀\t毁\n轂\t毂\n畢\t毕\n斃\t毙\n氈\t毡\n\
    毿\t毵\n氌\t氇\n氣\t气\n氫\t氢\n氬\t氩\n氳\t氲\n漢\t汉\n湯\t汤\n洶\t汹\n遝\t沓\n\
    溝\t沟\n沒\t没\n灃\t沣\n漚\t沤\n瀝\t沥\n淪\t沦\n滄\t沧\n渢\t沨\n溈\t沩\n滬\t沪\n\
    濔\t沵\n濘\t泞\n淚\t泪\n澩\t泶\n瀧\t泷\n瀘\t泸\n濼\t泺\n瀉\t泻\n潑\t泼\n澤\t泽\n\
    涇\t泾\n潔\t洁\n灑\t洒\n窪\t洼\n浹\t浃\n淺\t浅\n漿\t浆\n澆\t浇\n湞\t浈\n濁\t浊\n\
    測\t测\n澮\t浍\n濟\t济\n瀏\t浏\n滻\t浐\n渾\t浑\n滸\t浒\n濃\t浓\n潯\t浔\n濜\t浕\n\
    濤\t涛\n澇\t涝\n淶\t涞\n漣\t涟\n潿\t涠\n渦\t涡\n溳\t涢\n渙\t涣\n滌\t涤\n潤\t润\n\
    澗\t涧\n漲\t涨\n澀\t涩\n澱\t淀\n淵\t渊\n淥\t渌\n漬\t渍\n瀆\t渎\n漸\t渐\n澠\t渑\n\
    漁\t渔\n瀋\t沈\n滲\t渗\n溫\t温\n遊\t游\n灣\t湾\n濕\t湿\n潰\t溃\n濺\t溅\n漵\t溆\n\
    潷\t滗\n滾\t滚\n滯\t滞\n灩\t滟\n灄\t滠\n滿\t满\n瀅\t滢\n濾\t滤\n濫\t滥\n灤\t滦\n\
    濱\t滨\n灘\t滩\n澦\t滪\n瀟\t潇\n瀠\t潆\n瀦\t潴\n瀾\t澜\n瀨\t濑\n瀕\t濒\n灝\t灏\n\
    滅\t灭\n燈\t灯\n靈\t灵\n災\t灾\n燦\t灿\n煬\t炀\n爐\t炉\n燉\t炖\n煒\t炜\n熗\t炝\n\
    點\t点\n煉\t炼\n熾\t炽\n爍\t烁\n爛\t烂\n烴\t烃\n燭\t烛\n煙\t烟\n煩\t烦\n燒\t烧\n\
    燁\t烨\n燴\t烩\n燙\t烫\n燼\t烬\n熱\t热\n煥\t焕\n燜\t焖\n燾\t焘\n愛\t爱\n爺\t爷\n\
    牘\t牍\n犛\t牦\n牽\t牵\n犧\t牺\n犢\t犊\n狀\t状\n獷\t犷\n獁\t犸\n猶\t犹\n狽\t狈\n\
    獰\t狞\n獨\t独\n狹\t狭\n獅\t狮\n獪\t狯\n猙\t狰\n獄\t狱\n猻\t狲\n獫\t猃\n獵\t猎\n\
    獼\t猕\n玀\t猡\n豬\t猪\n貓\t猫\n蝟\t猬\n獻\t献\n獺\t獭\n璣\t玑\n瑪\t玛\n瑋\t玮\n\
    環\t环\n現\t现\n瑲\t玱\n璽\t玺\n瓏\t珑\n琺\t珐\n瓊\t琼\n瑤\t瑶\n璦\t瑷\n璿\t璇\n\
    瓔\t璎\n瓚\t瓒\n甕\t瓮\n甌\t瓯\n電\t电\n畫\t画\n暢\t畅\n疇\t畴\n癤\t疖\n療\t疗\n\
    瘧\t疟\n癘\t疠\n瘍\t疡\n瘡\t疮\n瘋\t疯\n皰\t疱\n痾\t疴\n癰\t痈\n痙\t痉\n癢\t痒\n\
    瘂\t痖\n癆\t痨\n瘓\t痪\n癇\t痫\n癡\t痴\n癉\t瘅\n瘞\t瘗\n瘺\t瘘\n癟\t瘪\n癱\t瘫\n\
    癮\t瘾\n癭\t瘿\n癩\t癞\n癬\t癣\n癲\t癫\n皚\t皑\n皺\t皱\n皸\t皲\n盞\t盏\n鹽\t盐\n\
    監\t监\n蓋\t盖\n盜\t盗\n盤\t盘\n眥\t眦\n矓\t眬\n睜\t睁\n睞\t睐\n瞼\t睑\n瞞\t瞒\n\
    矚\t瞩\n矯\t矫\n磯\t矶\n礬\t矾\n礦\t矿\n碭\t砀\n碼\t码\n磚\t砖\n硨\t砗\n硯\t砚\n\
    碸\t砜\n礪\t砺\n礱\t砻\n礫\t砾\n礎\t础\n硜\t硁\n碩\t硕\n硤\t硖\n磽\t硗\n確\t确\n\
    鹼\t碱\n礙\t碍\n磧\t碛\n磣\t碜\n禮\t礼\n禕\t祎\n禰\t祢\n禎\t祯\n禱\t祷\n禍\t祸\n\
    稟\t禀\n祿\t禄\n禪\t禅\n離\t离\n禿\t秃\n稈\t秆\n種\t种\n積\t积\n稱\t称\n穢\t秽\n\
    穠\t秾\n穭\t稆\n稅\t税\n穌\t稣\n穩\t稳\n穡\t穑\n窮\t穷\n竊\t窃\n竅\t窍\n窯\t窑\n\
    竄\t窜\n窩\t窝\n窺\t窥\n竇\t窦\n窶\t窭\n豎\t竖\n競\t竞\n篤\t笃\n筍\t笋\n筆\t笔\n\
    筧\t笕\n箋\t笺\n籠\t笼\n籩\t笾\n築\t筑\n篳\t筚\n篩\t筛\n簹\t筜\n箏\t筝\n籌\t筹\n\
    簽\t签\n簡\t简\n籙\t箓\n簀\t箦\n篋\t箧\n籜\t箨\n籮\t箩\n簞\t箪\n簫\t箫\n簣\t篑\n\
    簍\t篓\n籃\t篮\n籬\t篱\n籪\t簖\n籟\t籁\n糴\t籴\n類\t类\n秈\t籼\n糶\t粜\n糲\t粝\n\
    粵\t粤\n糞\t粪\n糧\t粮\n糝\t糁\n餱\t糇\n緊\t紧\n縶\t絷\n紆\t纡\n紅\t红\n紂\t纣\n\
    纖\t纤\n紇\t纥\n約\t约\n級\t级\n紈\t纨\n纊\t纩\n紀\t纪\n紉\t纫\n緯\t纬\n紜\t纭\n\
    紘\t纮\n純\t纯\n紕\t纰\n紗\t纱\n綱\t纲\n納\t纳\n紝\t纴\n縱\t纵\n綸\t纶\n紛\t纷\n\
    紙\t纸\n紋\t纹\n紡\t纺\n紵\t纻\n紖\t纼\n紐\t纽\n紓\t纾\n線\t线\n紺\t绀\n絏\t绁\n\
    紱\t绂\n練\t练\n組\t组\n紳\t绅\n細\t细\n織\t织\n終\t终\n縐\t绉\n絆\t绊\n紼\t绋\n\
    絀\t绌\n紹\t绍\n繹\t绎\n經\t经\n紿\t绐\n綁\t绑\n絨\t绒\n結\t结\n絝\t绔\n繞\t绕\n\
    絰\t绖\n絎\t绗\n繪\t绘\n給\t给\n絢\t绚\n絳\t绛\n絡\t络\n絕\t绝\n絞\t绞\n統\t统\n\
    綆\t绠\n綃\t绡\n絹\t绢\n繡\t绣\n綌\t绤\n綏\t绥\n絛\t绦\n繼\t继\n綈\t绨\n績\t绩\n\
    緒\t绪\n綾\t绫\n緓\t绬\n續\t续\n綺\t绮\n緋\t绯\n綽\t绰\n緔\t绱\n緄\t绲\n繩\t绳\n\
    維\t维\n綿\t绵\n綬\t绶\n繃\t绷\n綢\t绸\n綯\t绹\n綹\t绺\n綣\t绻\n綜\t综\n綻\t绽\n\
    綰\t绾\n綠\t绿\n綴\t缀\n緇\t缁\n緙\t缂\n緗\t缃\n緘\t缄\n緬\t缅\n纜\t缆\n緹\t缇\n\
    緲\t缈\n緝\t缉\n縕\t缊\n繢\t缋\n緦\t缌\n綞\t缍\n緞\t缎\n緶\t缏\n緱\t缑\n縋\t缒\n\
    緩\t缓\n締\t缔\n縷\t缕\n編\t编\n緡\t缗\n緣\t缘\n縉\t缙\n縛\t缚\n縟\t缛\n縝\t缜\n\
    縫\t缝\n縗\t缞\n縞\t缟\n纏\t缠\n縭\t缡\n縊\t缢\n縑\t缣\n繽\t缤\n縹\t缥\n縵\t缦\n\
    縲\t缧\n纓\t缨\n縮\t缩\n繆\t缪\n繅\t缫\n纈\t缬\n繚\t缭\n繕\t缮\n繒\t缯\n韁\t缰\n\
    繾\t缱\n繰\t缲\n繯\t缳\n繳\t缴\n纘\t缵\n罌\t罂\n網\t网\n羅\t罗\n罰\t罚\n罷\t罢\n\
    羆\t罴\n羈\t羁\n羥\t羟\n羨\t羡\n翹\t翘\n耮\t耢\n耬\t耧\n聳\t耸\n恥\t耻\n聶\t聂\n\
    聾\t聋\n職\t职\n聹\t聍\n聯\t联\n聵\t聩\n聰\t聪\n肅\t肃\n腸\t肠\n膚\t肤\n骯\t肮\n\
    餚\t肴\n腎\t肾\n腫\t肿\n脹\t胀\n脅\t胁\n膽\t胆\n勝\t胜\n朧\t胧\n腖\t胨\n臚\t胪\n\
    脛\t胫\n膠\t胶\n脈\t脉\n膾\t脍\n髒\t脏\n臍\t脐\n腦\t脑\n膿\t脓\n臠\t脔\n腳\t脚\n\
    脫\t脱\n腡\t脶\n臉\t脸\n臘\t腊\n醃\t腌\n膕\t腘\n齶\t腭\n膩\t腻\n靦\t腼\n膃\t腽\n\
    騰\t腾\n臏\t膑\n臢\t臜\n輿\t舆\n艤\t舣\n艦\t舰\n艙\t舱\n艫\t舻\n艱\t艰\n豔\t艳\n\
    藝\t艺\n節\t节\n羋\t芈\n薌\t芗\n蕪\t芜\n蘆\t芦\n蓯\t苁\n葦\t苇\n藶\t苈\n莧\t苋\n\
    萇\t苌\n蒼\t苍\n苧\t苎\n蘇\t苏\n檾\t苘\n蘋\t苹\n莖\t茎\n蘢\t茏\n蔦\t茑\n塋\t茔\n\
    煢\t茕\n繭\t茧\n荊\t荆\n薦\t荐\n薘\t荙\n莢\t荚\n蕘\t荛\n蓽\t荜\n蕎\t荞\n薈\t荟\n\
    薺\t荠\n蕩\t荡\n榮\t荣\n葷\t荤\n滎\t荥\n犖\t荦\n熒\t荧\n蕁\t荨\n藎\t荩\n蓀\t荪\n\
    蔭\t荫\n蕒\t荬\n葒\t荭\n葤\t荮\n藥\t药\n蒞\t莅\n蓧\t莜\n萊\t莱\n蓮\t莲\n蒔\t莳\n\
    萵\t莴\n薟\t莶\n獲\t获\n蕕\t莸\n瑩\t莹\n鶯\t莺\n蓴\t莼\n蘀\t萚\n蘿\t萝\n螢\t萤\n\
    營\t营\n縈\t萦\n蕭\t萧\n薩\t萨\n蔥\t葱\n蕆\t蒇\n蕢\t蒉\n蔣\t蒋\n蔞\t蒌\n藍\t蓝\n\
    薊\t蓟\n蘺\t蓠\n蕷\t蓣\n鎣\t蓥\n驀\t蓦\n薔\t蔷\n蘞\t蔹\n藺\t蔺\n藹\t蔼\n蘄\t蕲\n\
    蘊\t蕴\n藪\t薮\n蘚\t藓\n虜\t虏\n慮\t虑\n虛\t虚\n蟲\t虫\n虯\t虬\n蟣\t虮\n雖\t虽\n\
    蝦\t虾\n蠆\t虿\n蝕\t蚀\n蟻\t蚁\n螞\t蚂\n蠶\t蚕\n蠔\t蚝\n蜆\t蚬\n蠱\t蛊\n蠣\t蛎\n\
    蟶\t蛏\n蠻\t蛮\n蟄\t蛰\n蛺\t蛱\n蟯\t蛲\n螄\t蛳\n蠐\t蛴\n蛻\t蜕\n蝸\t蜗\n蠟\t蜡\n\
    蠅\t蝇\n蟈\t蝈\n蟬\t蝉\n蠍\t蝎\n螻\t蝼\n蠑\t蝾\n螿\t螀\n蟎\t螨\n蠨\t蟏\n釁\t衅\n\
    銜\t衔\n補\t补\n襯\t衬\n襖\t袄\n嫋\t袅\n褘\t袆\n襪\t袜\n襲\t袭\n襏\t袯\n裝\t装\n\
    襠\t裆\n褌\t裈\n褳\t裢\n襝\t裣\n褲\t裤\n襇\t裥\n褸\t褛\n襤\t褴\n繈\t襁\n襴\t襕\n\
    見\t见\n觀\t观\n覎\t觃\n規\t规\n覓\t觅\n視\t视\n覘\t觇\n覽\t览\n覺\t觉\n覬\t觊\n\
    覡\t觋\n覿\t觌\n覥\t觍\n覦\t觎\n覯\t觏\n覲\t觐\n覷\t觑\n觴\t觞\n觸\t触\n觶\t觯\n\
    讋\t詟\n譽\t誉\n謄\t誊\n訁\t讠\n計\t计\n訂\t订\n訃\t讣\n認\t认\n譏\t讥\n訐\t讦\n\
    訌\t讧\n討\t讨\n讓\t让\n訕\t讪\n訖\t讫\n訓\t训\n議\t议\n訊\t讯\n記\t记\n訒\t讱\n\
    講\t讲\n諱\t讳\n謳\t讴\n詎\t讵\n訝\t讶\n訥\t讷\n許\t许\n訛\t讹\n論\t论\n訩\t讻\n\
    訟\t讼\n諷\t讽\n設\t设\n訪\t访\n訣\t诀\n證\t证\n詁\t诂\n訶\t诃\n評\t评\n詛\t诅\n\
    識\t识\n詐\t诈\n訴\t诉\n診\t诊\n詆\t诋\n謅\t诌\n詞\t词\n詘\t诎\n詔\t诏\n譯\t译\n\
    詒\t诒\n誆\t诓\n誄\t诔\n試\t试\n詿\t诖\n詩\t诗\n詰\t诘\n詼\t诙\n誠\t诚\n誅\t诛\n\
    詵\t诜\n話\t话\n誕\t诞\n詬\t诟\n詮\t诠\n詭\t诡\n詢\t询\n詣\t诣\n諍\t诤\n該\t该\n\
    詳\t详\n詫\t诧\n諢\t诨\n詡\t诩\n譸\t诪\n誡\t诫\n誣\t诬\n語\t语\n誚\t诮\n誤\t误\n\
    誥\t诰\n誘\t诱\n誨\t诲\n誑\t诳\n說\t说\n誦\t诵\n誒\t诶\n請\t请\n諸\t诸\n諏\t诹\n\
    諾\t诺\n讀\t读\n諑\t诼\n誹\t诽\n課\t课\n諉\t诿\n諛\t谀\n誰\t谁\n諗\t谂\n調\t调\n\
    諂\t谄\n諒\t谅\n諄\t谆\n誶\t谇\n談\t谈\n誼\t谊\n謀\t谋\n諶\t谌\n諜\t谍\n謊\t谎\n\
    諫\t谏\n諧\t谐\n謁\t谒\n謂\t谓\n諤\t谔\n諭\t谕\n諼\t谖\n讒\t谗\n諮\t咨\n諳\t谙\n\
    諺\t谚\n諦\t谛\n謎\t谜\n諞\t谝\n諝\t谞\n謨\t谟\n讜\t谠\n謖\t谡\n謝\t谢\n謠\t谣\n\
    謗\t谤\n諡\t谥\n謙\t谦\n謐\t谧\n謹\t谨\n謾\t谩\n謫\t谪\n譾\t谫\n謬\t谬\n譚\t谭\n\
    譖\t谮\n譙\t谯\n讕\t谰\n譜\t谱\n譎\t谲\n讞\t谳\n譴\t谴\n譫\t谵\n讖\t谶\n穀\t谷\n\
    豶\t豮\n貝\t贝\n貞\t贞\n負\t负\n貟\t贠\n貢\t贡\n財\t财\n責\t责\n賢\t贤\n敗\t败\n\
    賬\t账\n貨\t货\n質\t质\n販\t贩\n貪\t贪\n貧\t贫\n貶\t贬\n購\t购\n貯\t贮\n貫\t贯\n\
    貳\t贰\n賤\t贱\n賁\t贲\n貰\t贳\n貼\t贴\n貴\t贵\n貺\t贶\n貸\t贷\n貿\t贸\n費\t费\n\
    賀\t贺\n貽\t贻\n賊\t贼\n贄\t贽\n賈\t贾\n賄\t贿\n貲\t赀\n賃\t赁\n賂\t赂\n贓\t赃\n\
    資\t资\n賅\t赅\n贐\t赆\n賕\t赇\n賑\t赈\n賚\t赉\n賒\t赊\n賦\t赋\n賭\t赌\n齎\t赍\n\
    贖\t赎\n賞\t赏\n賜\t赐\n贔\t赑\n賙\t赒\n賡\t赓\n賠\t赔\n賧\t赕\n賴\t赖\n賵\t赗\n\
    贅\t赘\n賻\t赙\n賺\t赚\n賽\t赛\n賾\t赜\n贗\t赝\n贊\t赞\n贇\t赟\n贈\t赠\n贍\t赡\n\
    贏\t赢\n贛\t赣\n趙\t赵\n趕\t赶\n趨\t趋\n趲\t趱\n躉\t趸\n躍\t跃\n蹌\t跄\n蹠\t跖\n\
    躒\t跞\n踐\t践\n躂\t跶\n蹺\t跷\n蹕\t跸\n躚\t跹\n躋\t跻\n踴\t踊\n躊\t踌\n蹤\t踪\n\
    躓\t踬\n躑\t踯\n躡\t蹑\n蹣\t蹒\n躕\t蹰\n躥\t蹿\n躪\t躏\n躦\t躜\n軀\t躯\n車\t车\n\
    軋\t轧\n軌\t轨\n軒\t轩\n軑\t轪\n軔\t轫\n轉\t转\n軛\t轭\n輪\t轮\n軟\t软\n轟\t轰\n\
    軲\t轱\n軻\t轲\n轤\t轳\n軸\t轴\n軹\t轵\n軼\t轶\n軤\t轷\n軫\t轸\n轢\t轹\n軺\t轺\n\
    輕\t轻\n軾\t轼\n載\t载\n輊\t轾\n轎\t轿\n輈\t辀\n輇\t辁\n輅\t辂\n較\t较\n輒\t辄\n\
    輔\t辅\n輛\t辆\n輦\t辇\n輩\t辈\n輝\t辉\n輥\t辊\n輞\t辋\n輬\t辌\n輟\t辍\n輜\t辎\n\
    輳\t辏\n輻\t辐\n輯\t辑\n轀\t辒\n輸\t输\n轡\t辔\n轅\t辕\n轄\t辖\n輾\t辗\n轆\t辘\n\
    轍\t辙\n轔\t辚\n辭\t辞\n辯\t辩\n辮\t辫\n邊\t边\n遼\t辽\n達\t达\n遷\t迁\n過\t过\n\
    邁\t迈\n運\t运\n還\t还\n這\t这\n進\t进\n遠\t远\n違\t违\n連\t连\n遲\t迟\n邇\t迩\n\
    逕\t迳\n跡\t迹\n適\t适\n選\t选\n遜\t逊\n遞\t递\n邐\t逦\n邏\t逻\n遺\t遗\n遙\t遥\n\
    鄧\t邓\n鄺\t邝\n鄔\t邬\n郵\t邮\n鄒\t邹\n鄴\t邺\n鄰\t邻\n鬱\t郁\n郟\t郏\n鄶\t郐\n\
    鄭\t郑\n鄆\t郓\n酈\t郦\n鄖\t郧\n鄲\t郸\n醞\t酝\n醱\t酦\n醬\t酱\n釅\t酽\n釃\t酾\n\
    釀\t酿\n釋\t释\n裏\t里\n鑒\t鉴\n鑾\t銮\n鏨\t錾\n釓\t钆\n釔\t钇\n針\t针\n釘\t钉\n\
    釗\t钊\n釙\t钋\n釕\t钌\n釷\t钍\n釺\t钎\n釧\t钏\n釤\t钐\n鈒\t钑\n釩\t钒\n釣\t钓\n\
    鍆\t钔\n釹\t钕\n鍚\t钖\n釵\t钗\n鈃\t钘\n鈣\t钙\n鈈\t钚\n鈦\t钛\n鈍\t钝\n鈔\t钞\n\
    鍾\t钟\n鈉\t钠\n鋇\t钡\n鋼\t钢\n鈑\t钣\n鈐\t钤\n鑰\t钥\n欽\t钦\n鈞\t钧\n鎢\t钨\n\
    鉤\t钩\n鈧\t钪\n鈁\t钫\n鈥\t钬\n鈄\t钭\n鈕\t钮\n鈀\t钯\n鈺\t钰\n錢\t钱\n鉦\t钲\n\
    鉗\t钳\n鈷\t钴\n缽\t钵\n鈳\t钶\n鉕\t钷\n鈽\t钸\n鈸\t钹\n鉞\t钺\n鑽\t钻\n鉬\t钼\n\
    鉭\t钽\n鉀\t钾\n鈿\t钿\n鈾\t铀\n鐵\t铁\n鉑\t铂\n鈴\t铃\n鑠\t铄\n鉛\t铅\n鉚\t铆\n\
    鈰\t铈\n鉉\t铉\n鉈\t铊\n鉍\t铋\n鈹\t铍\n鐸\t铎\n鉶\t铏\n銬\t铐\n銠\t铑\n鉺\t铒\n\
    銪\t铕\n鋏\t铗\n鋣\t铘\n鐃\t铙\n銍\t铚\n鐺\t铛\n銅\t铜\n鋁\t铝\n銱\t铞\n銦\t铟\n\
    鎧\t铠\n鍘\t铡\n銖\t铢\n銑\t铣\n鋌\t铤\n銩\t铥\n銛\t铦\n鏵\t铧\n銓\t铨\n鉿\t铪\n\
    銚\t铫\n鉻\t铬\n銘\t铭\n錚\t铮\n銫\t铯\n鉸\t铰\n銥\t铱\n鏟\t铲\n銃\t铳\n鐋\t铴\n\
    銨\t铵\n銀\t银\n銣\t铷\n鑄\t铸\n鐒\t铹\n鋪\t铺\n鋙\t铻\n錸\t铼\n鋱\t铽\n鏈\t链\n\
    鏗\t铿\n銷\t销\n鎖\t锁\n鋰\t锂\n鋥\t锃\n鋤\t锄\n鍋\t锅\n鋯\t锆\n鋨\t锇\n鏽\t锈\n\
    銼\t锉\n鋝\t锊\n鋒\t锋\n鋅\t锌\n鋶\t锍\n鐦\t锎\n鐧\t锏\n銳\t锐\n銻\t锑\n鋃\t锒\n\
    鋟\t锓\n鋦\t锔\n錒\t锕\n錆\t锖\n鍺\t锗\n錯\t错\n錨\t锚\n錡\t锜\n錁\t锞\n錕\t锟\n\
    錩\t锠\n錫\t锡\n錮\t锢\n鑼\t锣\n錘\t锤\n錐\t锥\n錦\t锦\n鍁\t锨\n錈\t锩\n錇\t锫\n\
    錟\t锬\n錠\t锭\n鍵\t键\n鋸\t锯\n錳\t锰\n錙\t锱\n鍥\t锲\n鍈\t锳\n鍇\t锴\n鏘\t锵\n\
    鍶\t锶\n鍔\t锷\n鍤\t锸\n鍬\t锹\n鍛\t锻\n鎪\t锼\n鍠\t锽\n鍰\t锾\n鎄\t锿\n鍍\t镀\n\
    鎂\t镁\n鏤\t镂\n鎡\t镃\n鏌\t镆\n鎮\t镇\n鎛\t镈\n鎘\t镉\n鑷\t镊\n鐫\t镌\n鎳\t镍\n\
    鎿\t镎\n鎦\t镏\n鎬\t镐\n鎊\t镑\n鎰\t镒\n鎵\t镓\n鑌\t镔\n鎔\t镕\n鏢\t镖\n鏜\t镗\n\
    鏝\t镘\n鏍\t镙\n鏰\t镚\n鏞\t镛\n鏡\t镜\n鏑\t镝\n鏃\t镞\n鏇\t镟\n鏐\t镠\n鐔\t镡\n\
    钁\t镢\n鐐\t镣\n鏷\t镤\n鑥\t镥\n鐓\t镦\n鑭\t镧\n鐠\t镨\n鑹\t镩\n鏹\t镪\n鐙\t镫\n\
    鑊\t镬\n鐳\t镭\n鐶\t镮\n鐲\t镯\n鐮\t镰\n鐿\t镱\n鑔\t镲\n鑣\t镳\n鑞\t镴\n鑲\t镶\n\
    長\t长\n門\t门\n閂\t闩\n閃\t闪\n閆\t闫\n閈\t闬\n閉\t闭\n問\t问\n闖\t闯\n閏\t闰\n\
    闈\t闱\n閑\t闲\n閎\t闳\n間\t间\n閔\t闵\n閌\t闶\n悶\t闷\n閘\t闸\n鬧\t闹\n閨\t闺\n\
    聞\t闻\n闥\t闼\n閩\t闽\n閭\t闾\n闓\t闿\n閥\t阀\n閣\t阁\n閡\t阂\n閫\t阃\n鬮\t阄\n\
    閱\t阅\n閬\t阆\n闍\t阇\n閾\t阈\n閹\t阉\n閶\t阊\n鬩\t阋\n閿\t阌\n閽\t阍\n閻\t阎\n\
    閼\t阏\n闡\t阐\n闌\t阑\n闃\t阒\n闠\t阓\n闊\t阔\n闋\t阕\n闔\t阖\n闐\t阗\n闒\t阘\n\
    闕\t阙\n闞\t阚\n闤\t阛\n隊\t队\n陽\t阳\n陰\t阴\n陣\t阵\n階\t阶\n際\t际\n陸\t陆\n\
    隴\t陇\n陳\t陈\n陘\t陉\n陝\t陕\n隉\t陧\n隕\t陨\n險\t险\n隨\t随\n隱\t隐\n隸\t隶\n\
    雋\t隽\n難\t难\n雛\t雏\n讎\t雠\n靂\t雳\n霧\t雾\n霽\t霁\n黴\t霉\n靄\t霭\n靚\t靓\n\
    靜\t静\n靨\t靥\n韃\t鞑\n鞽\t鞒\n韉\t鞯\n韝\t鞲\n韋\t韦\n韌\t韧\n韍\t韨\n韓\t韩\n\
    韙\t韪\n韞\t韫\n韜\t韬\n韻\t韵\n頁\t页\n頂\t顶\n頃\t顷\n頇\t顸\n項\t项\n順\t顺\n\
    須\t须\n頊\t顼\n頑\t顽\n顧\t顾\n頓\t顿\n頎\t颀\n頒\t颁\n頌\t颂\n頏\t颃\n預\t预\n\
    顱\t颅\n領\t领\n頗\t颇\n頸\t颈\n頡\t颉\n頰\t颊\n頲\t颋\n頜\t颌\n潁\t颍\n熲\t颎\n\
    頦\t颏\n頤\t颐\n頻\t频\n頮\t颒\n頹\t颓\n頷\t颔\n頴\t颕\n穎\t颖\n顆\t颗\n題\t题\n\
    顒\t颙\n顎\t颚\n顓\t颛\n顏\t颜\n額\t额\n顳\t颞\n顢\t颟\n顛\t颠\n顙\t颡\n顥\t颢\n\
    纇\t颣\n顫\t颤\n顬\t颥\n顰\t颦\n顴\t颧\n風\t风\n颺\t飏\n颭\t飐\n颮\t飑\n颯\t飒\n\
    颶\t飓\n颸\t飔\n颼\t飕\n颻\t飖\n飀\t飗\n飄\t飘\n飆\t飙\n飛\t飞\n饗\t飨\n饜\t餍\n\
    飣\t饤\n飢\t饥\n飥\t饦\n餳\t饧\n飩\t饨\n餼\t饩\n飪\t饪\n飫\t饫\n飭\t饬\n飯\t饭\n\
    飲\t饮\n餞\t饯\n飾\t饰\n飽\t饱\n飼\t饲\n飿\t饳\n飴\t饴\n餌\t饵\n饒\t饶\n餉\t饷\n\
    餄\t饸\n餎\t饹\n餃\t饺\n餏\t饻\n餅\t饼\n餑\t饽\n餖\t饾\n餓\t饿\n餒\t馁\n餕\t馂\n\
    餜\t馃\n餛\t馄\n餡\t馅\n館\t馆\n餷\t馇\n饋\t馈\n餶\t馉\n餿\t馊\n饞\t馋\n饁\t馌\n\
    饃\t馍\n餺\t馎\n餾\t馏\n饈\t馐\n饉\t馑\n饅\t馒\n饊\t馓\n饌\t馔\n饢\t馕\n馬\t马\n\
    馭\t驭\n馱\t驮\n馴\t驯\n馳\t驰\n驅\t驱\n馹\t驲\n駁\t驳\n驢\t驴\n駔\t驵\n駛\t驶\n\
    駟\t驷\n駙\t驸\n駒\t驹\n騶\t驺\n駐\t驻\n駝\t驼\n駑\t驽\n駕\t驾\n驛\t驿\n駘\t骀\n\
    驍\t骁\n罵\t骂\n駰\t骃\n驕\t骄\n驊\t骅\n駱\t骆\n駭\t骇\n駢\t骈\n驫\t骉\n驪\t骊\n\
    騁\t骋\n驗\t验\n騂\t骍\n駸\t骎\n駿\t骏\n騏\t骐\n騎\t骑\n騍\t骒\n騅\t骓\n騌\t骔\n\
    驌\t骕\n驂\t骖\n騙\t骗\n騭\t骘\n騤\t骙\n騷\t骚\n騖\t骛\n驁\t骜\n騮\t骝\n騫\t骞\n\
    騸\t骟\n驃\t骠\n騾\t骡\n驄\t骢\n驏\t骣\n驟\t骤\n驥\t骥\n驦\t骦\n驤\t骧\n髏\t髅\n\
    髖\t髋\n髕\t髌\n鬢\t鬓\n魘\t魇\n魎\t魉\n魚\t鱼\n魛\t鱽\n魢\t鱾\n魷\t鱿\n魨\t鲀\n\
    魯\t鲁\n魴\t鲂\n魺\t鲄\n鮁\t鲅\n鮃\t鲆\n鯰\t鲶\n鱸\t鲈\n鮋\t鲉\n鮓\t鲊\n鮒\t鲋\n\
    鮊\t鲌\n鮑\t鲍\n鱟\t鲎\n鮍\t鲏\n鮐\t鲐\n鮭\t鲑\n鮚\t鲒\n鮳\t鲓\n鮪\t鲔\n鮞\t鲕\n\
    鮦\t鲖\n鰂\t鲗\n鮜\t鲘\n鱠\t鲙\n鱭\t鲚\n鮫\t鲛\n鮮\t鲜\n鮺\t鲝\n鯗\t鲞\n鱘\t鲟\n\
    鯁\t鲠\n鱺\t鲡\n鰱\t鲢\n鰹\t鲣\n鯉\t鲤\n鰣\t鲥\n鰷\t鲦\n鯀\t鲧\n鯊\t鲨\n鯇\t鲩\n\
    鮶\t鲪\n鯽\t鲫\n鯒\t鲬\n鯖\t鲭\n鯪\t鲮\n鯕\t鲯\n鯫\t鲰\n鯡\t鲱\n鯤\t鲲\n鯧\t鲳\n\
    鯝\t鲴\n鯢\t鲵\n鯛\t鲷\n鯨\t鲸\n鯵\t鲹\n鯴\t鲺\n鯔\t鲻\n鱝\t鲼\n鰈\t鲽\n鰏\t鲾\n\
    鱨\t鲿\n鯷\t鳀\n鰮\t鳁\n鰃\t鳂\n鰓\t鳃\n鱷\t鳄\n鰍\t鳅\n鰒\t鳆\n鰉\t鳇\n鰁\t鳈\n\
    鱂\t鳉\n鯿\t鳊\n鰠\t鳋\n鼇\t鳌\n鰭\t鳍\n鰨\t鳎\n鰥\t鳏\n鰩\t鳐\n鰟\t鳑\n鰜\t鳒\n\
    鰳\t鳓\n鰾\t鳔\n鱈\t鳕\n鱉\t鳖\n鰻\t鳗\n鰵\t鳘\n鱅\t鳙\n鰼\t鳛\n鱖\t鳜\n鱔\t鳝\n\
    鱗\t鳞\n鱒\t鳟\n鱯\t鳠\n鱤\t鳡\n鱧\t鳢\n鱣\t鳣\n鳥\t鸟\n鳩\t鸠\n雞\t鸡\n鳶\t鸢\n\
    鳴\t鸣\n鳲\t鸤\n鷗\t鸥\n鴉\t鸦\n鶬\t鸧\n鴇\t鸨\n鴆\t鸩\n鴣\t鸪\n鶇\t鸫\n鸕\t鸬\n\
    鴨\t鸭\n鴞\t鸮\n鴦\t鸯\n鴒\t鸰\n鴟\t鸱\n鴝\t鸲\n鴛\t鸳\n鴕\t鸵\n鷥\t鸶\n鷙\t鸷\n\
    鴯\t鸸\n鴰\t鸹\n鵂\t鸺\n鴴\t鸻\n鵃\t鸼\n鴿\t鸽\n鸞\t鸾\n鴻\t鸿\n鵐\t鹀\n鵓\t鹁\n\
    鸝\t鹂\n鵑\t鹃\n鵠\t鹄\n鵝\t鹅\n鵒\t鹆\n鷳\t鹇\n鵜\t鹈\n鵡\t鹉\n鵲\t鹊\n鶓\t鹋\n\
    鵪\t鹌\n鶤\t鹍\n鵯\t鹎\n鵬\t鹏\n鵮\t鹐\n鶉\t鹑\n鶊\t鹒\n鵷\t鹓\n鷫\t鹔\n鶘\t鹕\n\
    鶡\t鹖\n鶚\t鹗\n鶻\t鹘\n鶖\t鹙\n鶿\t鹚\n鶥\t鹛\n鶩\t鹜\n鷊\t鹝\n鷂\t鹞\n鶲\t鹟\n\
    鶹\t鹠\n鶺\t鹡\n鷁\t鹢\n鶼\t鹣\n鶴\t鹤\n鷖\t鹥\n鸚\t鹦\n鷓\t鹧\n鷚\t鹨\n鷯\t鹩\n\
    鷦\t鹪\n鷲\t鹫\n鷸\t鹬\n鷺\t鹭\n鸇\t鹯\n鷹\t鹰\n鸌\t鹱\n鸏\t鹲\n鸛\t鹳\n鸘\t鹴\n\
    鹺\t鹾\n麥\t麦\n麩\t麸\n黃\t黄\n黌\t黉\n黶\t黡\n黷\t黩\n黲\t黪\n黽\t黾\n黿\t鼋\n\
    鼉\t鼍\n鼴\t鼹\n齊\t齐\n齏\t齑\n齒\t齿\n齔\t龀\n齕\t龁\n齗\t龂\n齟\t龃\n齡\t龄\n\
    齙\t龅\n齠\t龆\n齜\t龇\n齦\t龈\n齬\t龉\n齪\t龊\n齲\t龋\n齷\t龌\n龍\t龙\n龔\t龚\n\
    龕\t龛\n龜\t龟\n鷽\t鸴\n麵\t面\n鬆\t松\n鬍\t胡\n鬚\t须\n裡\t里\n誌\t志\n製\t制\n\
    鐘\t钟\n闆\t板\n錶\t表\n颱\t台\n颳\t刮\n捲\t卷\n迴\t回\n彙\t汇\n係\t系\n繫\t系\n\
    纔\t才\n儘\t尽\n噁\t恶\n嚮\t向\n壎\t埙\n崑\t昆\n巖\t岩\n恆\t恒\n慾\t欲\n採\t采\n\
    捨\t舍\n摺\t折\n檯\t台\n歎\t叹\n湧\t涌\n滙\t汇\n濬\t浚\n爲\t为\n牀\t床\n睏\t困\n\
    砲\t炮\n硃\t朱\n祕\t秘\n箇\t个\n籐\t藤\n絃\t弦\n綵\t彩\n纍\t累\n羣\t群\n脣\t唇\n\
    衆\t众\n裊\t袅\n輓\t挽\n釐\t厘\n鈎\t钩\n銲\t焊\n鋭\t锐\n錬\t炼\n鎌\t镰\n鑑\t鉴\n\
    閒\t闲\n鞦\t秋\n韆\t千\n髮\t发\n鰐\t鳄\n徵\t征\n癥\t症\n隻\t只\n祇\t只\n範\t范\n\
    週\t周\n準\t准\n濛\t蒙\n矇\t蒙\n複\t复\n瞭\t了\n嘗\t尝\n嚐\t尝\n鼕\t冬\n蔔\t卜\n\
    籤\t签\n託\t托\n註\t注\n蹟\t迹\n佔\t占\n佈\t布\n併\t并\n僱\t雇\n兇\t凶\n剷\t铲\n\
    唸\t念\n啓\t启\n喫\t吃\n噹\t当\n嚥\t咽\n姪\t侄\n弔\t吊\n彫\t雕\n悽\t凄\n昇\t升\n\
    樑\t梁\n槓\t杠\n毬\t球\n淒\t凄\n溼\t湿\n濶\t阔\n灧\t滟\n煖\t暖\n燻\t熏\n牠\t它\n\
    獃\t呆\n眞\t真\n硏\t研\n稭\t秸\n綫\t线\n緖\t绪\n罎\t坛\n聼\t听\n荳\t豆\n蓆\t席\n\
    襬\t摆\n譭\t毁\n讚\t赞\n貍\t狸\n鍊\t炼\n鎗\t枪\n陞\t升\n隄\t堤\n顔\t颜\n餽\t馈\n\
    駡\t骂\n鬪\t斗\n鵰\t雕\n鷄\t鸡\n鹵\t卤\n麪\t面\n麯\t曲\n黒\t黑\n鼈\t鳖\n齧\t啮\n\
    臟\t脏\n衝\t冲\n彆\t别\n餵\t喂\n妳\t你\n擡\t抬\n摀\t捂\n癒\t愈\n疋\t匹\n闢\t辟\n\
    乾\t干\n瑣\t琐\n臺\t台\n匯\t汇\n喚\t唤\n倖\t幸\n傚\t效\n僕\t仆\n勛\t勋\n噓\t嘘\n\
    囉\t啰\n墻\t墙\n孃\t娘\n崙\t仑\n巹\t卺\n廕\t荫\n懞\t蒙\n搥\t捶\n擣\t捣\n敍\t叙\n\
    朮\t术\n桿\t杆\n洩\t泄\n潛\t潜\n瀰\t弥\n牴\t抵\n瑯\t琅\n痠\t酸\n瞇\t眯\n稜\t棱\n\
    竪\t竖\n糰\t团\n紬\t绸\n緻\t致\n舖\t铺\n艷\t艳\n菸\t烟\n衊\t蔑\n覈\t核\n譟\t噪\n\
    谿\t溪\n賸\t剩\n邨\t村\n銹\t锈\n鍼\t针\n鎚\t锤\n閲\t阅\n闇\t暗\n鹹\t咸\n麽\t么\n\
    齣\t出\n盪\t荡\n饑\t饥\n穫\t获\n歷\t历\n傢\t家\n燬\t毁\n霑\t沾\n瘻\t瘘\n嚙\t啮\n\
    閤\t合\n蔴\t麻\n痲\t麻\n汚\t污\n靑\t青\n廻\t回\n寃\t冤\n寳\t宝\n櫂\t棹\n殻\t壳\n\
    讐\t雠\n跼\t局\n侷\t局\n遡\t溯\n鷴\t鹇\n糢\t模\n彿\t佛\n勣\t绩\n榖\t谷\n鬨\t哄\n\
    衹\t只\n";

} // verus!
